use vstd::prelude::*;

verus! {

/// What `str::to_uppercase` makes of a string.
pub uninterp spec fn upper_of(s: Seq<char>) -> Seq<char>;

/// Relies on `str::to_uppercase`: the upper-case form, a function of the
/// characters alone.
#[verifier::external_body]
fn to_upper(s: &str) -> (r: String)
    ensures
        r@ == upper_of(s@),
{
    s.to_uppercase()
}

/// The words of `s` separated by single spaces.
pub open spec fn join_words(s: Seq<Seq<char>>) -> Seq<char>
    decreases s.len(),
{
    if s.len() == 0 {
        seq![]
    } else if s.len() == 1 {
        s[0]
    } else {
        join_words(s.drop_last()) + " "@ + s.last()
    }
}

pub open spec fn strings_view(s: Seq<String>) -> Seq<Seq<char>> {
    s.map_values(|x: String| x@)
}

/// `words` joined by single spaces.
pub fn join(words: &Vec<String>) -> (r: String)
    ensures
        r@ == join_words(strings_view(words@)),
{
    let ghost w = strings_view(words@);
    let mut r = String::new();
    let mut i: usize = 0;
    while i < words.len()
        invariant
            i <= words.len(),
            w == strings_view(words@),
            r@ == join_words(w.take(i as int)),
        decreases words.len() - i,
    {
        assert(w.take(i as int + 1).drop_last() =~= w.take(i as int));
        if i > 0 {
            r.append(" ");
        }
        r.append(words[i].as_str());
        i += 1;
        assert(r@ =~= join_words(w.take(i as int)));
    }
    assert(w.take(i as int) =~= w);
    r
}

/// A shell command line: environment assignments, a prefix of wrapper
/// commands, the executable and its parameters.
#[derive(Clone, Debug)]
pub struct CommandlineBuilder {
    environment_variables: Vec<String>,
    executable: String,
    parameters: Vec<String>,
    pre_parameters: Vec<String>,
}

/// The parts of a command line, as mathematical values.
pub struct CommandlineView {
    pub environment_variables: Seq<Seq<char>>,
    pub executable: Seq<char>,
    pub parameters: Seq<Seq<char>>,
    pub pre_parameters: Seq<Seq<char>>,
}

impl View for CommandlineBuilder {
    type V = CommandlineView;

    closed spec fn view(&self) -> CommandlineView {
        CommandlineView {
            environment_variables: strings_view(self.environment_variables@),
            executable: self.executable@,
            parameters: strings_view(self.parameters@),
            pre_parameters: strings_view(self.pre_parameters@),
        }
    }
}

/// The command line: assignments, prefix, executable and parameters, each
/// part joined by spaces and the four separated by one space.
pub open spec fn command_of(c: CommandlineView) -> Seq<char> {
    join_words(c.environment_variables) + " "@ + join_words(c.pre_parameters) + " "@ + c.executable
        + " "@ + join_words(c.parameters)
}

impl CommandlineBuilder {
    /// An empty command line.
    pub fn new() -> (r: CommandlineBuilder)
        ensures
            r@.environment_variables.len() == 0,
            r@.executable.len() == 0,
            r@.parameters.len() == 0,
            r@.pre_parameters.len() == 0,
    {
        let r = CommandlineBuilder {
            environment_variables: Vec::new(),
            executable: String::new(),
            parameters: Vec::new(),
            pre_parameters: Vec::new(),
        };
        assert(r@.environment_variables =~= Seq::<Seq<char>>::empty());
        assert(r@.parameters =~= Seq::<Seq<char>>::empty());
        assert(r@.pre_parameters =~= Seq::<Seq<char>>::empty());
        r
    }

    /// Adds the assignment `NAME=value`, the name in upper case.
    pub fn add_environment_variable(&mut self, name: &str, value: &str)
        ensures
            final(self)@.environment_variables == old(self)@.environment_variables.push(
                upper_of(name@) + "="@ + value@,
            ),
            final(self)@.executable == old(self)@.executable,
            final(self)@.parameters == old(self)@.parameters,
            final(self)@.pre_parameters == old(self)@.pre_parameters,
    {
        let mut s = to_upper(name);
        s.append("=");
        s.append(value);
        self.environment_variables.push(s);
        assert(final(self)@.environment_variables =~= old(self)@.environment_variables.push(
            upper_of(name@) + "="@ + value@,
        ));
    }

    /// Adds a parameter after the executable.
    pub fn add_parameter(&mut self, parameter: &str)
        ensures
            final(self)@.parameters == old(self)@.parameters.push(parameter@),
            final(self)@.environment_variables == old(self)@.environment_variables,
            final(self)@.executable == old(self)@.executable,
            final(self)@.pre_parameters == old(self)@.pre_parameters,
    {
        self.parameters.push(String::from_str(parameter));
        assert(final(self)@.parameters =~= old(self)@.parameters.push(parameter@));
    }

    /// Adds a wrapper command before the executable.
    pub fn add_pre_parameter(&mut self, parameter: &str)
        ensures
            final(self)@.pre_parameters == old(self)@.pre_parameters.push(parameter@),
            final(self)@.environment_variables == old(self)@.environment_variables,
            final(self)@.executable == old(self)@.executable,
            final(self)@.parameters == old(self)@.parameters,
    {
        self.pre_parameters.push(String::from_str(parameter));
        assert(final(self)@.pre_parameters =~= old(self)@.pre_parameters.push(parameter@));
    }

    /// Adds a path parameter, in single quotes.
    pub fn add_parameter_path(&mut self, parameter: &str)
        ensures
            final(self)@.parameters == old(self)@.parameters.push("'"@ + parameter@ + "'"@),
            final(self)@.environment_variables == old(self)@.environment_variables,
            final(self)@.executable == old(self)@.executable,
            final(self)@.pre_parameters == old(self)@.pre_parameters,
    {
        let mut s = String::from_str("'");
        s.append(parameter);
        s.append("'");
        self.parameters.push(s);
        assert(final(self)@.parameters =~= old(self)@.parameters.push("'"@ + parameter@ + "'"@));
    }

    /// Sets the executable.
    pub fn set_executable(&mut self, executable: &str)
        ensures
            final(self)@.executable == executable@,
            final(self)@.environment_variables == old(self)@.environment_variables,
            final(self)@.parameters == old(self)@.parameters,
            final(self)@.pre_parameters == old(self)@.pre_parameters,
    {
        self.executable = String::from_str(executable);
    }

    /// The command line.
    pub fn build_command(&self) -> (r: String)
        ensures
            r@ == command_of(self@),
    {
        let mut r = join(&self.environment_variables);
        r.append(" ");
        r.append(join(&self.pre_parameters).as_str());
        r.append(" ");
        r.append(self.executable.as_str());
        r.append(" ");
        r.append(join(&self.parameters).as_str());
        r
    }
}

impl Default for CommandlineBuilder {
    /// An empty command line.
    fn default() -> (r: CommandlineBuilder)
        ensures
            r@.environment_variables.len() == 0,
            r@.executable.len() == 0,
            r@.parameters.len() == 0,
            r@.pre_parameters.len() == 0,
    {
        CommandlineBuilder::new()
    }
}

} // verus!
