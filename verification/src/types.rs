//! The values that an editor sends with its requests: who it is, what to
//! build and how often.
use vstd::prelude::*;
use vstd::string::*;
use crate::error::{Error, ErrorView};
use crate::path::{abbreviate, abbreviated};
use crate::text::{
    decimal, decimal_string, eq_ignore_ascii_case, join2, join3, same_ignoring_case, same_text,
};
use crate::words::{split_whitespace, words};

verus! {

/// An editor session attached to the daemon.
#[derive(Debug)]
pub struct Client {
    /// Process id of the editor.
    pub pid: i32,
    /// Root directory of the project the editor works in.
    pub root: String,
    /// Address of the editor's notification channel.
    pub address: String,
}

/// The mathematical value of a [`Client`].
pub struct ClientView {
    pub pid: i32,
    pub root: Seq<char>,
    pub address: Seq<char>,
}

impl View for Client {
    type V = ClientView;

    open spec fn view(&self) -> ClientView {
        ClientView { pid: self.pid, root: self.root@, address: self.address@ }
    }
}

impl Clone for Client {
    fn clone(&self) -> (r: Client)
        ensures
            r@ == self@,
    {
        Client { pid: self.pid, root: self.root.clone(), address: self.address.clone() }
    }
}

/// Build configuration to run.
#[derive(Debug)]
pub enum BuildConfiguration {
    Debug,
    Release,
    Custom(String),
}

/// The mathematical value of a [`BuildConfiguration`].
pub enum BuildConfigurationView {
    Debug,
    Release,
    Custom(Seq<char>),
}

impl View for BuildConfiguration {
    type V = BuildConfigurationView;

    open spec fn view(&self) -> BuildConfigurationView {
        match self {
            BuildConfiguration::Debug => BuildConfigurationView::Debug,
            BuildConfiguration::Release => BuildConfigurationView::Release,
            BuildConfiguration::Custom(name) => BuildConfigurationView::Custom(name@),
        }
    }
}

impl Clone for BuildConfiguration {
    fn clone(&self) -> (r: BuildConfiguration)
        ensures
            r@ == self@,
    {
        match self {
            BuildConfiguration::Debug => BuildConfiguration::Debug,
            BuildConfiguration::Release => BuildConfiguration::Release,
            BuildConfiguration::Custom(name) => BuildConfiguration::Custom(name.clone()),
        }
    }
}

impl BuildConfigurationView {
    /// The name of the variant, which is how a configuration is written on
    /// a command line.
    pub open spec fn name(self) -> Seq<char> {
        match self {
            BuildConfigurationView::Debug => "Debug"@,
            BuildConfigurationView::Release => "Release"@,
            BuildConfigurationView::Custom(_) => "Custom"@,
        }
    }

    /// The configuration that a variant name stands for, if it is one. The
    /// name `Custom` stands for a custom configuration without a name.
    pub open spec fn parse(text: Seq<char>) -> Option<BuildConfigurationView> {
        if text == "Debug"@ {
            Some(BuildConfigurationView::Debug)
        } else if text == "Release"@ {
            Some(BuildConfigurationView::Release)
        } else if text == "Custom"@ {
            Some(BuildConfigurationView::Custom(Seq::empty()))
        } else {
            None
        }
    }

    /// The configuration as it appears in the identity of a watchable:
    /// a custom configuration carries its name.
    pub open spec fn identity(self) -> Seq<char> {
        match self {
            BuildConfigurationView::Debug => "Debug"@,
            BuildConfigurationView::Release => "Release"@,
            BuildConfigurationView::Custom(name) => "Custom("@ + name + ")"@,
        }
    }
}

impl BuildConfiguration {
    /// The name of the variant.
    pub fn to_string(&self) -> (s: String)
        ensures
            s@ == self@.name(),
    {
        match self {
            BuildConfiguration::Debug => String::from_str("Debug"),
            BuildConfiguration::Release => String::from_str("Release"),
            BuildConfiguration::Custom(_) => String::from_str("Custom"),
        }
    }

    /// Reads a variant name; `None` for any other text.
    pub fn from_str(text: &str) -> (r: Option<BuildConfiguration>)
        ensures
            r.is_some() == BuildConfigurationView::parse(text@).is_some(),
            r.is_some() ==> r.unwrap()@ == BuildConfigurationView::parse(text@).unwrap(),
    {
        if same_text(text, "Debug") {
            Some(BuildConfiguration::Debug)
        } else if same_text(text, "Release") {
            Some(BuildConfiguration::Release)
        } else if same_text(text, "Custom") {
            Some(BuildConfiguration::Custom(String::new()))
        } else {
            None
        }
    }

    /// The configuration as it appears in the identity of a watchable.
    pub fn identity(&self) -> (s: String)
        ensures
            s@ == self@.identity(),
    {
        match self {
            BuildConfiguration::Debug => String::from_str("Debug"),
            BuildConfiguration::Release => String::from_str("Release"),
            BuildConfiguration::Custom(name) => join3("Custom(", name.as_str(), ")"),
        }
    }
}

/// Whether a request is executed once, starts a watch, or stops one.
#[derive(Debug, Clone, Copy, PartialEq, Eq, Structural)]
pub enum Operation {
    Watch,
    Stop,
    Once,
}

impl Operation {
    /// Whether the request starts a watch.
    #[must_use]
    pub fn is_watch(&self) -> (r: bool)
        ensures
            r == (*self == Operation::Watch),
    {
        matches!(self, Operation::Watch)
    }

    /// Whether the request stops a watch.
    #[must_use]
    pub fn is_stop(&self) -> (r: bool)
        ensures
            r == (*self == Operation::Stop),
    {
        matches!(self, Operation::Stop)
    }

    /// Whether the request is executed once.
    #[must_use]
    pub fn is_once(&self) -> (r: bool)
        ensures
            r == (*self == Operation::Once),
    {
        matches!(self, Operation::Once)
    }

    /// The name of the variant.
    pub open spec fn name(self) -> Seq<char> {
        match self {
            Operation::Watch => "Watch"@,
            Operation::Stop => "Stop"@,
            Operation::Once => "Once"@,
        }
    }

    /// The operation that a variant name stands for, if it is one.
    pub open spec fn parse(text: Seq<char>) -> Option<Operation> {
        if text == "Watch"@ {
            Some(Operation::Watch)
        } else if text == "Stop"@ {
            Some(Operation::Stop)
        } else if text == "Once"@ {
            Some(Operation::Once)
        } else {
            None
        }
    }

    /// The name of the variant.
    pub fn to_string(&self) -> (s: String)
        ensures
            s@ == self.name(),
    {
        match self {
            Operation::Watch => String::from_str("Watch"),
            Operation::Stop => String::from_str("Stop"),
            Operation::Once => String::from_str("Once"),
        }
    }

    /// Reads a variant name; `None` for any other text.
    pub fn from_str(text: &str) -> (r: Option<Operation>)
        ensures
            r == Operation::parse(text@),
    {
        if same_text(text, "Watch") {
            Some(Operation::Watch)
        } else if same_text(text, "Stop") {
            Some(Operation::Stop)
        } else if same_text(text, "Once") {
            Some(Operation::Once)
        } else {
            None
        }
    }
}

impl Default for Operation {
    fn default() -> (r: Operation)
        ensures
            r == Operation::Once,
    {
        Operation::Once
    }
}

/// What to build: a scheme or a target.
#[derive(Debug)]
pub enum BuildMethod {
    /// Scheme to build.
    WithScheme(String),
    /// Target to build.
    WithTarget(String),
}

/// The mathematical value of a [`BuildMethod`].
pub enum BuildMethodView {
    WithScheme(Seq<char>),
    WithTarget(Seq<char>),
}

impl View for BuildMethod {
    type V = BuildMethodView;

    open spec fn view(&self) -> BuildMethodView {
        match self {
            BuildMethod::WithScheme(scheme) => BuildMethodView::WithScheme(scheme@),
            BuildMethod::WithTarget(target) => BuildMethodView::WithTarget(target@),
        }
    }
}

impl Clone for BuildMethod {
    fn clone(&self) -> (r: BuildMethod)
        ensures
            r@ == self@,
    {
        match self {
            BuildMethod::WithScheme(scheme) => BuildMethod::WithScheme(scheme.clone()),
            BuildMethod::WithTarget(target) => BuildMethod::WithTarget(target.clone()),
        }
    }
}

impl BuildMethodView {
    /// The name of the scheme or of the target.
    pub open spec fn scheme_or_target(self) -> Seq<char> {
        match self {
            BuildMethodView::WithScheme(scheme) => scheme,
            BuildMethodView::WithTarget(target) => target,
        }
    }

    /// The method as a log line names it.
    pub open spec fn log_info(self) -> Seq<char> {
        match self {
            BuildMethodView::WithScheme(scheme) => "scheme: "@ + scheme,
            BuildMethodView::WithTarget(target) => "target: "@ + target,
        }
    }

    /// The method as it appears in the identity of a watchable.
    pub open spec fn identity(self) -> Seq<char> {
        match self {
            BuildMethodView::WithScheme(scheme) => "WithScheme("@ + scheme + ")"@,
            BuildMethodView::WithTarget(target) => "WithTarget("@ + target + ")"@,
        }
    }

    /// The part of a command line that selects the scheme or the target.
    pub open spec fn flag(self) -> Seq<char> {
        match self {
            BuildMethodView::WithScheme(scheme) => " -scheme \""@ + scheme + "\""@,
            BuildMethodView::WithTarget(target) => " -target \""@ + target + "\""@,
        }
    }
}

impl BuildMethod {
    /// The method as a log line names it: `scheme: ` or `target: ` and the name.
    pub fn format_for_log_info(&self) -> (s: String)
        ensures
            s@ == self@.log_info(),
    {
        match self {
            BuildMethod::WithScheme(scheme) => join2("scheme: ", scheme.as_str()),
            BuildMethod::WithTarget(target) => join2("target: ", target.as_str()),
        }
    }

    /// The name of the scheme or of the target.
    pub fn scheme_or_target(&self) -> (s: &str)
        ensures
            s@ == self@.scheme_or_target(),
    {
        match self {
            BuildMethod::WithScheme(scheme) => scheme.as_str(),
            BuildMethod::WithTarget(target) => target.as_str(),
        }
    }

    /// The method as it appears in the identity of a watchable.
    pub fn identity(&self) -> (s: String)
        ensures
            s@ == self@.identity(),
    {
        match self {
            BuildMethod::WithScheme(scheme) => join3("WithScheme(", scheme.as_str(), ")"),
            BuildMethod::WithTarget(target) => join3("WithTarget(", target.as_str(), ")"),
        }
    }
}

/// Fields required to build a project.
#[derive(Debug)]
pub struct BuildSettings {
    /// How to build.
    pub method: BuildMethod,
    /// Configuration to build with.
    pub configuration: BuildConfiguration,
}

/// The mathematical value of [`BuildSettings`].
pub struct BuildSettingsView {
    pub method: BuildMethodView,
    pub configuration: BuildConfigurationView,
}

impl View for BuildSettings {
    type V = BuildSettingsView;

    open spec fn view(&self) -> BuildSettingsView {
        BuildSettingsView { method: self.method@, configuration: self.configuration@ }
    }
}

impl Clone for BuildSettings {
    fn clone(&self) -> (r: BuildSettings)
        ensures
            r@ == self@,
    {
        BuildSettings { method: self.method.clone(), configuration: self.configuration.clone() }
    }
}

impl BuildSettingsView {
    /// The settings as command-line text: `-configuration`, the name of the
    /// configuration, then `-scheme` or `-target` and the name in double
    /// quotes.
    pub open spec fn command_line(self) -> Seq<char> {
        "-configuration "@ + self.configuration.name() + self.method.flag()
    }

    /// The settings as they appear in the identity of a watchable.
    pub open spec fn identity(self) -> Seq<char> {
        self.configuration.identity() + ":"@ + self.method.identity()
    }
}

impl BuildSettings {
    /// The settings as command-line text.
    pub fn to_string(&self) -> (s: String)
        ensures
            s@ == self@.command_line(),
    {
        let head = join2("-configuration ", self.configuration.to_string().as_str());
        match &self.method {
            BuildMethod::WithScheme(scheme) => {
                let flag = join3(" -scheme \"", scheme.as_str(), "\"");
                join2(head.as_str(), flag.as_str())
            },
            BuildMethod::WithTarget(target) => {
                let flag = join3(" -target \"", target.as_str(), "\"");
                join2(head.as_str(), flag.as_str())
            },
        }
    }

    /// The target to build, where the settings name one.
    pub fn target(&self) -> (r: Option<&str>)
        ensures
            match self@.method {
                BuildMethodView::WithScheme(_) => r.is_none(),
                BuildMethodView::WithTarget(target) => r.is_some() && r.unwrap()@ == target,
            },
    {
        match &self.method {
            BuildMethod::WithScheme(_) => None,
            BuildMethod::WithTarget(target) => Some(target.as_str()),
        }
    }

    /// The scheme to build, where the settings name one.
    pub fn scheme(&self) -> (r: Option<&str>)
        ensures
            match self@.method {
                BuildMethodView::WithScheme(scheme) => r.is_some() && r.unwrap()@ == scheme,
                BuildMethodView::WithTarget(_) => r.is_none(),
            },
    {
        match &self.method {
            BuildMethod::WithScheme(scheme) => Some(scheme.as_str()),
            BuildMethod::WithTarget(_) => None,
        }
    }

    /// The settings as they appear in the identity of a watchable.
    pub fn identity(&self) -> (s: String)
        ensures
            s@ == self@.identity(),
    {
        let c = self.configuration.identity();
        let m = self.method.identity();
        join3(c.as_str(), ":", m.as_str())
    }
}

/// How to find the device to run a built project on.
#[derive(Debug)]
pub struct DeviceLookup {
    pub name: Option<String>,
    pub udid: Option<String>,
}

/// The mathematical value of a [`DeviceLookup`].
pub struct DeviceLookupView {
    pub name: Option<Seq<char>>,
    pub udid: Option<Seq<char>>,
}

/// The characters of an optional string.
pub open spec fn text_of(s: Option<String>) -> Option<Seq<char>> {
    match s {
        Some(t) => Some(t@),
        None => None,
    }
}

/// A copy of an optional string.
pub fn copy_text(s: &Option<String>) -> (r: Option<String>)
    ensures
        text_of(r) == text_of(*s),
{
    match s {
        Some(t) => Some(t.clone()),
        None => None,
    }
}

impl View for DeviceLookup {
    type V = DeviceLookupView;

    open spec fn view(&self) -> DeviceLookupView {
        DeviceLookupView { name: text_of(self.name), udid: text_of(self.udid) }
    }
}

impl Clone for DeviceLookup {
    fn clone(&self) -> (r: DeviceLookup)
        ensures
            r@ == self@,
    {
        DeviceLookup { name: copy_text(&self.name), udid: copy_text(&self.udid) }
    }
}

impl Default for DeviceLookup {
    fn default() -> (r: DeviceLookup)
        ensures
            r@ == (DeviceLookupView { name: None, udid: None }),
    {
        DeviceLookup { name: None, udid: None }
    }
}

impl BuildSettings {
    /// The settings as the arguments of a command: the command-line text,
    /// split at whitespace.
    pub fn to_args(&self) -> (args: Vec<String>)
        ensures
            args.deep_view() == words(self@.command_line()),
    {
        split_whitespace(self.to_string().as_str())
    }
}

impl Client {
    /// The client with the given process id and address, at the given
    /// root or, where none is given, at the working directory.
    pub fn new(pid: i32, address: String, root: Option<String>, cwd: String) -> (c: Client)
        ensures
            c@ == (ClientView {
                pid,
                root: match root {
                    Some(r) => r@,
                    None => cwd@,
                },
                address: address@,
            }),
    {
        Client {
            pid,
            address,
            root: match root {
                Some(r) => r,
                None => cwd,
            },
        }
    }

    /// The short form of the root: its last three components, or the
    /// empty text for a root of fewer.
    pub fn abbrev_root(&self) -> (s: String)
        ensures
            s@ == abbreviated(self@.root),
    {
        abbreviate(self.root.as_str())
    }
}

/// Where the log buffer is opened.
#[derive(Debug, Clone, Copy, PartialEq, Eq, Structural)]
pub enum BufferDirection {
    Default,
    Vertical,
    Horizontal,
    TabEdit,
}

impl BufferDirection {
    /// The direction that a name stands for, whatever the case of its
    /// letters, if it is one.
    pub open spec fn parse(text: Seq<char>) -> Option<BufferDirection> {
        if same_ignoring_case(text, "Default"@) {
            Some(BufferDirection::Default)
        } else if same_ignoring_case(text, "Vertical"@) {
            Some(BufferDirection::Vertical)
        } else if same_ignoring_case(text, "Horizontal"@) {
            Some(BufferDirection::Horizontal)
        } else if same_ignoring_case(text, "TabEdit"@) {
            Some(BufferDirection::TabEdit)
        } else {
            None
        }
    }

    /// The editor command that opens the buffer `bufnr` in this direction.
    pub open spec fn command(self, bufnr: i64) -> Seq<char> {
        match self {
            BufferDirection::Default => "sbuffer "@ + decimal(bufnr as int),
            BufferDirection::Vertical => "vert sbuffer "@ + decimal(bufnr as int),
            BufferDirection::Horizontal => "sbuffer "@ + decimal(bufnr as int),
            BufferDirection::TabEdit => "tabe "@ + decimal(bufnr as int),
        }
    }

    /// Reads the name of a direction; `None` for any other text.
    pub fn from_str(text: &str) -> (r: Option<BufferDirection>)
        ensures
            r == BufferDirection::parse(text@),
    {
        if eq_ignore_ascii_case(text, "Default") {
            Some(BufferDirection::Default)
        } else if eq_ignore_ascii_case(text, "Vertical") {
            Some(BufferDirection::Vertical)
        } else if eq_ignore_ascii_case(text, "Horizontal") {
            Some(BufferDirection::Horizontal)
        } else if eq_ignore_ascii_case(text, "TabEdit") {
            Some(BufferDirection::TabEdit)
        } else {
            None
        }
    }

    /// The editor command that opens the buffer `bufnr` in this direction.
    pub fn to_nvim_command(&self, bufnr: i64) -> (s: String)
        ensures
            s@ == self.command(bufnr),
    {
        let number = decimal_string(bufnr);
        match self {
            BufferDirection::Default => join2("sbuffer ", number.as_str()),
            BufferDirection::Vertical => join2("vert sbuffer ", number.as_str()),
            BufferDirection::Horizontal => join2("sbuffer ", number.as_str()),
            BufferDirection::TabEdit => join2("tabe ", number.as_str()),
        }
    }
}

impl Default for BufferDirection {
    fn default() -> (r: BufferDirection)
        ensures
            r == BufferDirection::Default,
    {
        BufferDirection::Default
    }
}

/// A value as an editor's script hands it over, as far as the daemon
/// tells values apart: nothing, a text, or something else.
#[derive(Debug)]
pub enum Input {
    Nil,
    Text(String),
    Other,
}

/// The error of a text that names no variant.
pub open spec fn no_variant() -> ErrorView {
    ErrorView::Unexpected("Matching variant not found"@)
}

/// The error of a value that is not what is expected.
pub open spec fn unexpected(message: Seq<char>) -> ErrorView {
    ErrorView::Unexpected(message)
}

/// The value of a result that holds a configuration.
pub open spec fn configuration_view(r: Result<BuildConfiguration, Error>) -> Result<
    BuildConfigurationView,
    ErrorView,
> {
    match r {
        Ok(c) => Ok(c@),
        Err(e) => Err(e@),
    }
}

/// The value of a result that holds build settings.
pub open spec fn settings_view(r: Result<BuildSettings, Error>) -> Result<
    BuildSettingsView,
    ErrorView,
> {
    match r {
        Ok(s) => Ok(s@),
        Err(e) => Err(e@),
    }
}

/// The value of a result that holds a plain value.
pub open spec fn plain_view<T>(r: Result<T, Error>) -> Result<T, ErrorView> {
    match r {
        Ok(v) => Ok(v),
        Err(e) => Err(e@),
    }
}

impl BuildConfiguration {
    /// The configuration that a script's value stands for: a text is read
    /// as the name of a variant, anything else is an error.
    pub open spec fn of_input(value: Input) -> Result<BuildConfigurationView, ErrorView> {
        match value {
            Input::Text(text) => match BuildConfigurationView::parse(text@) {
                Some(c) => Ok(c),
                None => Err(no_variant()),
            },
            _ => Err(unexpected("Expected a string value for BuildConfiguration"@)),
        }
    }

    /// The configuration that a script's value stands for.
    pub fn from_input(value: &Input) -> (r: Result<BuildConfiguration, Error>)
        ensures
            configuration_view(r) == BuildConfiguration::of_input(*value),
    {
        match value {
            Input::Text(text) => match BuildConfiguration::from_str(text.as_str()) {
                Some(c) => Ok(c),
                None => Err(Error::Unexpected(String::from_str("Matching variant not found"))),
            },
            _ => Err(
                Error::Unexpected(String::from_str("Expected a string value for BuildConfiguration")),
            ),
        }
    }
}

impl Operation {
    /// The operation that a script's value stands for: a text is read as
    /// the name of a variant; anything else stands for the default.
    pub open spec fn of_input(value: Input) -> Result<Operation, ErrorView> {
        match value {
            Input::Text(text) => match Operation::parse(text@) {
                Some(op) => Ok(op),
                None => Err(no_variant()),
            },
            _ => Ok(Operation::Once),
        }
    }

    /// The operation that a script's value stands for.
    pub fn from_input(value: &Input) -> (r: Result<Operation, Error>)
        ensures
            plain_view(r) == Operation::of_input(*value),
    {
        match value {
            Input::Text(text) => match Operation::from_str(text.as_str()) {
                Some(op) => Ok(op),
                None => Err(Error::Unexpected(String::from_str("Matching variant not found"))),
            },
            _ => Ok(Operation::Once),
        }
    }
}

impl BufferDirection {
    /// The direction that a script's value stands for: a text is read as
    /// the name of a direction; anything else stands for the default.
    pub open spec fn of_input(value: Input) -> Result<BufferDirection, ErrorView> {
        match value {
            Input::Text(text) => match BufferDirection::parse(text@) {
                Some(d) => Ok(d),
                None => Err(no_variant()),
            },
            _ => Ok(BufferDirection::Default),
        }
    }

    /// The direction that a script's value stands for.
    pub fn from_input(value: &Input) -> (r: Result<BufferDirection, Error>)
        ensures
            plain_view(r) == BufferDirection::of_input(*value),
    {
        match value {
            Input::Text(text) => match BufferDirection::from_str(text.as_str()) {
                Some(d) => Ok(d),
                None => Err(Error::Unexpected(String::from_str("Matching variant not found"))),
            },
            _ => Ok(BufferDirection::Default),
        }
    }
}

impl BuildSettings {
    /// The settings that the fields of a script's table stand for: one of
    /// scheme and target has to be there, and one only.
    pub open spec fn of_fields(
        scheme: Option<Seq<char>>,
        target: Option<Seq<char>>,
        configuration: BuildConfigurationView,
    ) -> Result<BuildSettingsView, ErrorView> {
        match (scheme, target) {
            (Some(scheme), None) => Ok(
                BuildSettingsView { method: BuildMethodView::WithScheme(scheme), configuration },
            ),
            (None, Some(target)) => Ok(
                BuildSettingsView { method: BuildMethodView::WithTarget(target), configuration },
            ),
            (Some(_), Some(_)) => Err(
                unexpected(
                    "Expected either BuildSettings.scheme or BuildSettings.target, got both"@,
                ),
            ),
            (None, None) => Err(
                unexpected(
                    "Expected value BuildSettings.scheme or BuildSettings.target not found"@,
                ),
            ),
        }
    }

    /// The settings that the fields of a script's table stand for.
    pub fn from_fields(
        scheme: Option<String>,
        target: Option<String>,
        configuration: BuildConfiguration,
    ) -> (r: Result<BuildSettings, Error>)
        ensures
            settings_view(r) == BuildSettings::of_fields(
                text_of(scheme),
                text_of(target),
                configuration@,
            ),
    {
        match (scheme, target) {
            (Some(scheme), None) => Ok(
                BuildSettings { method: BuildMethod::WithScheme(scheme), configuration },
            ),
            (None, Some(target)) => Ok(
                BuildSettings { method: BuildMethod::WithTarget(target), configuration },
            ),
            (Some(_), Some(_)) => Err(
                Error::Unexpected(
                    String::from_str(
                        "Expected either BuildSettings.scheme or BuildSettings.target, got both",
                    ),
                ),
            ),
            (None, None) => Err(
                Error::Unexpected(
                    String::from_str(
                        "Expected value BuildSettings.scheme or BuildSettings.target not found",
                    ),
                ),
            ),
        }
    }
}

} // verus!
