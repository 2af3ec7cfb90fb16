//! What a build is configured with on the command line of the build tool,
//! and the log lines that the steps of a build become.
use vstd::prelude::*;
use vstd::string::*;
use crate::error::{Error, ErrorView};
use crate::text::{join2, same_text};
use crate::types::{text_of, unexpected, Input};
use crate::words::{lines, split_lines, trim, trimmed};

verus! {

/// The configuration of a build.
#[derive(Debug)]
pub enum XConfiguration {
    Debug,
    Release,
    Custom(String),
}

/// The mathematical value of an [`XConfiguration`].
pub enum XConfigurationView {
    Debug,
    Release,
    Custom(Seq<char>),
}

impl View for XConfiguration {
    type V = XConfigurationView;

    open spec fn view(&self) -> XConfigurationView {
        match self {
            XConfiguration::Debug => XConfigurationView::Debug,
            XConfiguration::Release => XConfigurationView::Release,
            XConfiguration::Custom(name) => XConfigurationView::Custom(name@),
        }
    }
}

impl XConfigurationView {
    /// The name of the variant.
    pub open spec fn name(self) -> Seq<char> {
        match self {
            XConfigurationView::Debug => "Debug"@,
            XConfigurationView::Release => "Release"@,
            XConfigurationView::Custom(_) => "Custom"@,
        }
    }

    /// The configuration that a text stands for: `debug` and `release`,
    /// also with a capital, stand for the two configurations of that name,
    /// any other text for a custom configuration of that name.
    pub open spec fn of_text(text: Seq<char>) -> XConfigurationView {
        if text == "debug"@ || text == "Debug"@ {
            XConfigurationView::Debug
        } else if text == "release"@ || text == "Release"@ {
            XConfigurationView::Release
        } else {
            XConfigurationView::Custom(text)
        }
    }

    /// The configuration that a script's value stands for: a text as
    /// [`XConfigurationView::of_text`] reads it, nothing for the debug
    /// configuration; anything else is an error.
    pub open spec fn of_input(value: Input) -> Result<XConfigurationView, ErrorView> {
        match value {
            Input::Text(text) => Ok(XConfigurationView::of_text(text@)),
            Input::Nil => Ok(XConfigurationView::Debug),
            Input::Other => Err(unexpected("Expected a table got XConfiguration"@)),
        }
    }
}

/// The value of a result that holds a configuration.
pub open spec fn x_view(r: Result<XConfiguration, Error>) -> Result<XConfigurationView, ErrorView> {
    match r {
        Ok(c) => Ok(c@),
        Err(e) => Err(e@),
    }
}

impl XConfiguration {
    /// The name of the variant.
    pub fn to_string(&self) -> (s: String)
        ensures
            s@ == self@.name(),
    {
        match self {
            XConfiguration::Debug => String::from_str("Debug"),
            XConfiguration::Release => String::from_str("Release"),
            XConfiguration::Custom(_) => String::from_str("Custom"),
        }
    }

    /// The configuration that a script's value stands for.
    pub fn from_input(value: &Input) -> (r: Result<XConfiguration, Error>)
        ensures
            x_view(r) == XConfigurationView::of_input(*value),
    {
        match value {
            Input::Text(text) => {
                let t = text.as_str();
                if same_text(t, "debug") || same_text(t, "Debug") {
                    Ok(XConfiguration::Debug)
                } else if same_text(t, "release") || same_text(t, "Release") {
                    Ok(XConfiguration::Release)
                } else {
                    Ok(XConfiguration::Custom(text.clone()))
                }
            },
            Input::Nil => Ok(XConfiguration::Debug),
            Input::Other => Err(
                Error::Unexpected(String::from_str("Expected a table got XConfiguration")),
            ),
        }
    }
}

impl Default for XConfiguration {
    fn default() -> (r: XConfiguration)
        ensures
            r@ == XConfigurationView::Debug,
    {
        XConfiguration::Debug
    }
}

/// Fields required to build a project.
#[derive(Debug)]
pub struct BuildConfiguration {
    pub sysroot: Option<String>,
    /// Target to build.
    pub target: Option<String>,
    /// Configuration to build with.
    pub configuration: XConfiguration,
    /// Scheme to build with.
    pub scheme: Option<String>,
}

/// The mathematical value of a [`BuildConfiguration`].
pub struct BuildConfigurationView {
    pub sysroot: Option<Seq<char>>,
    pub target: Option<Seq<char>>,
    pub configuration: XConfigurationView,
    pub scheme: Option<Seq<char>>,
}

impl View for BuildConfiguration {
    type V = BuildConfigurationView;

    open spec fn view(&self) -> BuildConfigurationView {
        BuildConfigurationView {
            sysroot: text_of(self.sysroot),
            target: text_of(self.target),
            configuration: self.configuration@,
            scheme: text_of(self.scheme),
        }
    }
}

/// The flag `flag` with its value, where there is a value.
pub open spec fn flag_text(flag: Seq<char>, value: Option<Seq<char>>) -> Seq<char> {
    match value {
        Some(v) => flag + v,
        None => Seq::empty(),
    }
}

impl BuildConfigurationView {
    /// The command line of the build: the build tool, the configuration,
    /// and the system root, the scheme and the target where they are set,
    /// in that order.
    pub open spec fn command_line(self) -> Seq<char> {
        "xcodebuild"@ + (" -configuration "@ + self.configuration.name()) + flag_text(
            " -sysroot "@,
            self.sysroot,
        ) + flag_text(" -scheme "@, self.scheme) + flag_text(" -target "@, self.target)
    }
}

fn push_flag(s: &mut String, flag: &str, value: &Option<String>)
    ensures
        final(s)@ == old(s)@ + flag_text(flag@, text_of(*value)),
{
    match value {
        Some(v) => {
            s.append(flag);
            s.append(v.as_str());
            assert(s@ =~= old(s)@ + flag_text(flag@, text_of(*value)));
        },
        None => {
            assert(s@ =~= old(s)@ + flag_text(flag@, text_of(*value)));
        },
    }
}

impl BuildConfiguration {
    /// The command line of the build.
    pub fn to_string(&self) -> (s: String)
        ensures
            s@ == self@.command_line(),
    {
        let mut s = String::from_str("xcodebuild");
        let head = join2(" -configuration ", self.configuration.to_string().as_str());
        s.append(head.as_str());
        push_flag(&mut s, " -sysroot ", &self.sysroot);
        push_flag(&mut s, " -scheme ", &self.scheme);
        push_flag(&mut s, " -target ", &self.target);
        s
    }
}

impl Default for BuildConfiguration {
    fn default() -> (r: BuildConfiguration)
        ensures
            r@ == (BuildConfigurationView {
                sysroot: None,
                target: None,
                configuration: XConfigurationView::Debug,
                scheme: None,
            }),
    {
        BuildConfiguration {
            sysroot: None,
            target: None,
            configuration: XConfiguration::Debug,
            scheme: None,
        }
    }
}

/// What a step of a build is, as far as its log lines depend on it.
#[derive(Debug, Clone, Copy, PartialEq, Eq, Structural)]
pub enum StepKind {
    /// The build tool has exited.
    Exit,
    /// A build, a clean or a test has succeeded or failed.
    Verdict,
    /// Any other step.
    Other,
}

/// The rule that is drawn behind a verdict.
pub open spec fn rule() -> Seq<char> {
    " ----------------------------------------------------"@
}

/// The log lines of a step with the given text: none for the exit of the
/// build tool; for a verdict the text, trimmed, with a rule behind it; for
/// any other step the text, trimmed, unless that is empty. What is logged
/// is split at line feeds.
pub open spec fn step_lines_of(kind: StepKind, text: Seq<char>) -> Seq<Seq<char>> {
    match kind {
        StepKind::Exit => Seq::empty(),
        StepKind::Verdict => lines(trimmed(text) + rule()),
        StepKind::Other => if trimmed(text).len() == 0 {
            Seq::empty()
        } else {
            lines(trimmed(text))
        },
    }
}

/// The log lines of a step of a build.
pub fn step_lines(kind: StepKind, text: &str) -> (r: Vec<String>)
    ensures
        r.deep_view() == step_lines_of(kind, text@),
{
    match kind {
        StepKind::Exit => {
            let r: Vec<String> = Vec::new();
            assert(r.deep_view() =~= Seq::<Seq<char>>::empty());
            r
        },
        StepKind::Verdict => {
            let line = join2(
                trim(text).as_str(),
                " ----------------------------------------------------",
            );
            split_lines(line.as_str())
        },
        StepKind::Other => {
            let line = trim(text);
            if line.as_str().unicode_len() == 0 {
                let r: Vec<String> = Vec::new();
                assert(r.deep_view() =~= Seq::<Seq<char>>::empty());
                r
            } else {
                split_lines(line.as_str())
            }
        },
    }
}

/// A step of a build: what it is, and its text.
#[derive(Debug)]
pub struct Step {
    pub kind: StepKind,
    pub text: String,
}

/// The log lines of a run of steps: the lines of each step, one step
/// after the other.
pub open spec fn stream_of(steps: Seq<Step>) -> Seq<Seq<char>>
    decreases steps.len(),
{
    if steps.len() == 0 {
        Seq::empty()
    } else {
        stream_of(steps.drop_last()) + step_lines_of(steps.last().kind, steps.last().text@)
    }
}

/// The log lines of the steps of a build, in the order of the steps.
pub fn stream(steps: &Vec<Step>) -> (r: Vec<String>)
    ensures
        r.deep_view() == stream_of(steps@),
{
    let mut r: Vec<String> = Vec::new();
    let mut i: usize = 0;
    assert(steps@.take(0) =~= Seq::<Step>::empty());
    assert(r.deep_view() =~= Seq::<Seq<char>>::empty());
    while i < steps.len()
        invariant
            i <= steps.len(),
            r.deep_view() == stream_of(steps@.take(i as int)),
        decreases steps.len() - i,
    {
        let mut lines = step_lines(steps[i].kind, steps[i].text.as_str());
        let ghost before = r.deep_view();
        let ghost added = lines.deep_view();
        let ghost old_r = r@;
        let ghost old_lines = lines@;
        r.append(&mut lines);
        proof {
            assert(r@ == old_r + old_lines);
            assert(r.deep_view() =~= before + added);
            assert(steps@.take(i + 1).drop_last() =~= steps@.take(i as int));
        }
        i = i + 1;
    }
    assert(steps@.take(steps.len() as int) =~= steps@);
    r
}

} // verus!
