//! Errors of the bar as a whole.
//!
//! An error either names the part of the bar that failed, with a text that
//! says why, or carries an error of the bus unchanged.

use vstd::prelude::*;
use vstd::string::StringExecFns;
use vstd::std_specs::convert::FromSpecImpl;

verus! {

/// An error of the bus library.
#[verifier::external_type_specification]
#[verifier::external_body]
pub struct ExBusError(zbus::Error);

/// An error that the bus itself defines.
#[verifier::external_type_specification]
#[verifier::external_body]
pub struct ExBusStandardError(zbus::fdo::Error);

/// An error in a name on the bus.
#[verifier::external_type_specification]
#[verifier::external_body]
pub struct ExBusNameError(zbus_names::Error);

/// An error in a value on the bus.
#[verifier::external_type_specification]
#[verifier::external_body]
pub struct ExBusValueError(zbus::zvariant::Error);

/// What the bus library turns one of the bus's own errors into.
pub uninterp spec fn standard_error_as_bus_error(err: zbus::fdo::Error) -> zbus::Error;

/// Everything that can go wrong in the bar.
#[derive(Debug)]
pub enum AppError {
    GtkInitialization(String),
    TokioRuntime(String),
    CssLoad(String),
    LayerShell(String),
    WorkspaceQuery(String),
    WorkspaceChannel(String),
    TitleChannel(String),
    BatteryChannel(String),
    TimeFormat(String),
    WidgetCreation(String),
    Zbus(zbus::Error),
    ZbusFdo(zbus::fdo::Error),
    ZbusNames(zbus_names::Error),
    ZbusVariant(zbus::zvariant::Error),
}

/// Calls `From<zbus::fdo::Error>` of `zbus::Error`: an error that wraps an
/// error of the bus library gives that one, any other is boxed as it is. The
/// contract only names the result.
#[verifier::external_body]
fn standard_into_bus_error(err: zbus::fdo::Error) -> (out: zbus::Error)
    ensures
        out == standard_error_as_bus_error(err),
{
    zbus::Error::from(err)
}

/// Calls `Display` of `zbus::Error`. Nothing is claimed of the text: an
/// error of the operating system is worded after the language of the machine.
#[verifier::external_body]
fn bus_error_text(err: &zbus::Error) -> (text: String) {
    format!("{}", err)
}

/// Calls `Display` of `zbus::fdo::Error`. Nothing is claimed of the text,
/// which may be that of a `zbus::Error`.
#[verifier::external_body]
fn standard_error_text(err: &zbus::fdo::Error) -> (text: String) {
    format!("{}", err)
}

/// Calls `Display` of `zbus_names::Error`. Nothing is claimed of the text,
/// which may be that of a `zvariant::Error`.
#[verifier::external_body]
fn name_error_text(err: &zbus_names::Error) -> (text: String) {
    format!("{}", err)
}

/// Calls `Display` of `zvariant::Error`. Nothing is claimed of the text: an
/// error of the operating system is worded after the language of the machine.
#[verifier::external_body]
fn value_error_text(err: &zbus::zvariant::Error) -> (text: String) {
    format!("{}", err)
}

impl FromSpecImpl<zbus::Error> for AppError {
    open spec fn obeys_from_spec() -> bool {
        true
    }

    open spec fn from_spec(err: zbus::Error) -> AppError {
        AppError::Zbus(err)
    }
}

impl From<zbus::Error> for AppError {
    fn from(err: zbus::Error) -> (out: AppError) {
        AppError::Zbus(err)
    }
}

impl FromSpecImpl<zbus::fdo::Error> for AppError {
    open spec fn obeys_from_spec() -> bool {
        true
    }

    open spec fn from_spec(err: zbus::fdo::Error) -> AppError {
        AppError::Zbus(standard_error_as_bus_error(err))
    }
}

impl From<zbus::fdo::Error> for AppError {
    fn from(err: zbus::fdo::Error) -> (out: AppError) {
        AppError::Zbus(standard_into_bus_error(err))
    }
}

impl FromSpecImpl<zbus_names::Error> for AppError {
    open spec fn obeys_from_spec() -> bool {
        true
    }

    open spec fn from_spec(err: zbus_names::Error) -> AppError {
        AppError::ZbusNames(err)
    }
}

impl From<zbus_names::Error> for AppError {
    fn from(err: zbus_names::Error) -> (out: AppError) {
        AppError::ZbusNames(err)
    }
}

impl FromSpecImpl<zbus::zvariant::Error> for AppError {
    open spec fn obeys_from_spec() -> bool {
        true
    }

    open spec fn from_spec(err: zbus::zvariant::Error) -> AppError {
        AppError::ZbusVariant(err)
    }
}

impl From<zbus::zvariant::Error> for AppError {
    fn from(err: zbus::zvariant::Error) -> (out: AppError) {
        AppError::ZbusVariant(err)
    }
}

impl AppError {
    /// The words that open the message of this error.
    pub open spec fn heading(&self) -> Seq<char> {
        match *self {
            AppError::GtkInitialization(_) => "GTK application failed to initialize: "@,
            AppError::TokioRuntime(_) => "Failed to create tokio runtime: "@,
            AppError::CssLoad(_) => "CSS provider failed to load stylesheet: "@,
            AppError::LayerShell(_) => "Layer shell initialization failed: "@,
            AppError::WorkspaceQuery(_) => "Hyprland workspace query failed: "@,
            AppError::WorkspaceChannel(_) => "Workspace channel setup failed: "@,
            AppError::TitleChannel(_) => "Title channel setup failed: "@,
            AppError::BatteryChannel(_) => "Battery channel setup failed: "@,
            AppError::TimeFormat(_) => "Time formatting failed: "@,
            AppError::WidgetCreation(_) => "Widget creation failed: "@,
            AppError::Zbus(_) => "zbus failed "@,
            AppError::ZbusFdo(_) => "zbus fdo error "@,
            AppError::ZbusNames(_) => "zbus names error "@,
            AppError::ZbusVariant(_) => "zbus variant error "@,
        }
    }

    /// The text that says why, where this error carries one itself.
    pub open spec fn detail(&self) -> Option<Seq<char>> {
        match *self {
            AppError::GtkInitialization(why) => Some(why@),
            AppError::TokioRuntime(why) => Some(why@),
            AppError::CssLoad(why) => Some(why@),
            AppError::LayerShell(why) => Some(why@),
            AppError::WorkspaceQuery(why) => Some(why@),
            AppError::WorkspaceChannel(why) => Some(why@),
            AppError::TitleChannel(why) => Some(why@),
            AppError::BatteryChannel(why) => Some(why@),
            AppError::TimeFormat(why) => Some(why@),
            AppError::WidgetCreation(why) => Some(why@),
            _ => None,
        }
    }

    /// The message of this error where `why` is the text that says why: the
    /// heading, then that text.
    pub fn message_with(&self, why: &str) -> (text: String)
        ensures
            text@ == self.heading() + why@,
    {
        let heading = match self {
            AppError::GtkInitialization(_) => "GTK application failed to initialize: ",
            AppError::TokioRuntime(_) => "Failed to create tokio runtime: ",
            AppError::CssLoad(_) => "CSS provider failed to load stylesheet: ",
            AppError::LayerShell(_) => "Layer shell initialization failed: ",
            AppError::WorkspaceQuery(_) => "Hyprland workspace query failed: ",
            AppError::WorkspaceChannel(_) => "Workspace channel setup failed: ",
            AppError::TitleChannel(_) => "Title channel setup failed: ",
            AppError::BatteryChannel(_) => "Battery channel setup failed: ",
            AppError::TimeFormat(_) => "Time formatting failed: ",
            AppError::WidgetCreation(_) => "Widget creation failed: ",
            AppError::Zbus(_) => "zbus failed ",
            AppError::ZbusFdo(_) => "zbus fdo error ",
            AppError::ZbusNames(_) => "zbus names error ",
            AppError::ZbusVariant(_) => "zbus variant error ",
        };
        let mut text = String::from_str(heading);
        text.append(why);
        text
    }

    /// The message of this error: its heading, then the text that says why.
    /// For an error of the bus that text is the one the bus library gives at
    /// that moment, which it words after the language of the machine; of it
    /// only its place behind the heading is stated.
    pub fn message(&self) -> (text: String)
        ensures
            self.heading().is_prefix_of(text@),
            self.detail() matches Some(why) ==> text@ == self.heading() + why,
    {
        let text = match self {
            AppError::GtkInitialization(why) => self.message_with(why.as_str()),
            AppError::TokioRuntime(why) => self.message_with(why.as_str()),
            AppError::CssLoad(why) => self.message_with(why.as_str()),
            AppError::LayerShell(why) => self.message_with(why.as_str()),
            AppError::WorkspaceQuery(why) => self.message_with(why.as_str()),
            AppError::WorkspaceChannel(why) => self.message_with(why.as_str()),
            AppError::TitleChannel(why) => self.message_with(why.as_str()),
            AppError::BatteryChannel(why) => self.message_with(why.as_str()),
            AppError::TimeFormat(why) => self.message_with(why.as_str()),
            AppError::WidgetCreation(why) => self.message_with(why.as_str()),
            AppError::Zbus(err) => {
                let why = bus_error_text(err);
                self.message_with(why.as_str())
            },
            AppError::ZbusFdo(err) => {
                let why = standard_error_text(err);
                self.message_with(why.as_str())
            },
            AppError::ZbusNames(err) => {
                let why = name_error_text(err);
                self.message_with(why.as_str())
            },
            AppError::ZbusVariant(err) => {
                let why = value_error_text(err);
                self.message_with(why.as_str())
            },
        };
        assert(text@.subrange(0, self.heading().len() as int) =~= self.heading());
        text
    }
}

} // verus!
