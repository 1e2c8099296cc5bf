use vstd::prelude::*;

verus! {

/// The artwork categories that Steam shows for a shortcut.
#[derive(Clone, Copy, Debug, PartialEq, Eq, Structural)]
pub enum ImageType {
    Hero,
    Grid,
    WideGrid,
    Logo,
    Icon,
}

/// The decimal digits of `n`, most significant first, with no leading zeros.
pub open spec fn decimal(n: nat) -> Seq<char>
    decreases n,
{
    if n < 10 {
        seq![digit_char(n)]
    } else {
        decimal(n / 10).push(digit_char(n % 10))
    }
}

/// The character of the decimal digit `d`.
pub open spec fn digit_char(d: nat) -> char {
    if d == 0 {
        '0'
    } else if d == 1 {
        '1'
    } else if d == 2 {
        '2'
    } else if d == 3 {
        '3'
    } else if d == 4 {
        '4'
    } else if d == 5 {
        '5'
    } else if d == 6 {
        '6'
    } else if d == 7 {
        '7'
    } else if d == 8 {
        '8'
    } else {
        '9'
    }
}

fn digit_str(d: u64) -> (r: &'static str)
    requires
        d < 10,
    ensures
        r@ == seq![digit_char(d as nat)],
{
    match d {
        0 => {
            proof {
                reveal_strlit("0");
            }
            "0"
        },
        1 => {
            proof {
                reveal_strlit("1");
            }
            "1"
        },
        2 => {
            proof {
                reveal_strlit("2");
            }
            "2"
        },
        3 => {
            proof {
                reveal_strlit("3");
            }
            "3"
        },
        4 => {
            proof {
                reveal_strlit("4");
            }
            "4"
        },
        5 => {
            proof {
                reveal_strlit("5");
            }
            "5"
        },
        6 => {
            proof {
                reveal_strlit("6");
            }
            "6"
        },
        7 => {
            proof {
                reveal_strlit("7");
            }
            "7"
        },
        8 => {
            proof {
                reveal_strlit("8");
            }
            "8"
        },
        _ => {
            proof {
                reveal_strlit("9");
            }
            "9"
        },
    }
}

/// The decimal form of `n`, without sign or leading zeros.
pub fn decimal_string(n: u64) -> (r: String)
    ensures
        r@ == decimal(n as nat),
    decreases n,
{
    if n < 10 {
        String::from_str(digit_str(n))
    } else {
        let mut r = decimal_string(n / 10);
        r.append(digit_str(n % 10));
        r
    }
}

pub open spec fn image_suffix(t: ImageType) -> Seq<char> {
    match t {
        ImageType::Hero => "_hero"@,
        ImageType::Grid => "p"@,
        ImageType::WideGrid => ""@,
        ImageType::Logo => "_logo"@,
        ImageType::Icon => "_icon"@,
    }
}

/// The file name, without extension, that Steam looks for when it shows the
/// artwork of type `t` for the shortcut `app_id`.
pub open spec fn artwork_stem(t: ImageType, app_id: u32) -> Seq<char> {
    decimal(app_id as nat) + image_suffix(t)
}

pub open spec fn image_type_name(t: ImageType) -> Seq<char> {
    match t {
        ImageType::Hero => "Hero"@,
        ImageType::Grid => "Grid"@,
        ImageType::WideGrid => "Wide Grid"@,
        ImageType::Logo => "Logo"@,
        ImageType::Icon => "Icon"@,
    }
}

/// The categories, in the order in which a shortcut's artwork is checked.
pub open spec fn all_image_types() -> Seq<ImageType> {
    seq![ImageType::Logo, ImageType::Hero, ImageType::Grid, ImageType::WideGrid, ImageType::Icon]
}

/// Every category of artwork of `app_id` is among `keys`.
pub open spec fn has_all_artwork(app_id: u32, keys: Seq<Seq<char>>) -> bool {
    forall|i: int| 0 <= i < all_image_types().len() ==> keys.contains(
        #[trigger] artwork_stem(all_image_types()[i], app_id),
    )
}

impl ImageType {
    /// All categories.
    pub fn all() -> (r: Vec<ImageType>)
        ensures
            r@ == all_image_types(),
    {
        let r = vec![ImageType::Logo, ImageType::Hero, ImageType::Grid, ImageType::WideGrid, ImageType::Icon];
        assert(r@ =~= all_image_types());
        r
    }

    /// A human readable name of the category.
    pub fn name(&self) -> (r: &'static str)
        ensures
            r@ == image_type_name(*self),
    {
        match self {
            ImageType::Hero => "Hero",
            ImageType::Grid => "Grid",
            ImageType::WideGrid => "Wide Grid",
            ImageType::Logo => "Logo",
            ImageType::Icon => "Icon",
        }
    }

    fn suffix(&self) -> (r: &'static str)
        ensures
            r@ == image_suffix(*self),
    {
        match self {
            ImageType::Hero => "_hero",
            ImageType::Grid => "p",
            ImageType::WideGrid => "",
            ImageType::Logo => "_logo",
            ImageType::Icon => "_icon",
        }
    }

    /// The file name of this artwork for `app_id`, without extension.
    pub fn file_name_no_extension(&self, app_id: u32) -> (r: String)
        ensures
            r@ == artwork_stem(*self, app_id),
    {
        let mut r = decimal_string(app_id as u64);
        r.append(self.suffix());
        r
    }

    /// The file name of this artwork for `app_id`, with the extension `ext`.
    pub fn file_name(&self, app_id: u32, ext: &str) -> (r: String)
        ensures
            r@ == artwork_stem(*self, app_id) + "."@ + ext@,
    {
        let mut r = self.file_name_no_extension(app_id);
        r.append(".");
        r.append(ext);
        r
    }
}

/// Whether `keys` holds `key`.
pub fn contains_key(keys: &Vec<String>, key: &String) -> (r: bool)
    ensures
        r == keys@.map_values(|s: String| s@).contains(key@),
{
    let ghost view = keys@.map_values(|s: String| s@);
    let mut i: usize = 0;
    while i < keys.len()
        invariant
            i <= keys.len(),
            view == keys@.map_values(|s: String| s@),
            forall|j: int| 0 <= j < i ==> view[j] != key@,
        decreases keys.len() - i,
    {
        if keys[i] == *key {
            assert(view[i as int] == key@);
            return true;
        }
        i += 1;
    }
    proof {
        if view.contains(key@) {
            let j = choose|j: int| 0 <= j < view.len() && view[j] == key@;
            assert(view[j] != key@);
        }
    }
    false
}

/// Whether every category of artwork of `app_id` is among `keys`.
pub fn artwork_complete(app_id: u32, keys: &Vec<String>) -> (r: bool)
    ensures
        r == has_all_artwork(app_id, keys@.map_values(|s: String| s@)),
{
    let ghost view = keys@.map_values(|s: String| s@);
    let types = ImageType::all();
    let mut i: usize = 0;
    while i < types.len()
        invariant
            i <= types.len(),
            types@ == all_image_types(),
            view == keys@.map_values(|s: String| s@),
            forall|j: int| 0 <= j < i ==> view.contains(#[trigger] artwork_stem(all_image_types()[j], app_id)),
        decreases types.len() - i,
    {
        let stem = types[i].file_name_no_extension(app_id);
        if !contains_key(keys, &stem) {
            return false;
        }
        i += 1;
    }
    true
}

} // verus!
