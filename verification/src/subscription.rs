//! The signals that the monitor asks the bus for.
//!
//! The bus delivers a signal only where a match rule asks for it. Three rules
//! are asked for, each on its own: where one cannot be made or installed, the
//! others still are, and the monitor hears what they let through.

use vstd::prelude::*;
use crate::error::AppError;
use crate::names::is_bus_name;
use crate::names::is_interface_name;
use crate::names::is_member_name;
use crate::names::is_object_path;
use crate::names::valid_bus_name;
use crate::names::valid_interface_name;
use crate::names::valid_member_name;
use crate::names::valid_object_path;
use crate::signal::INTERFACES_ADDED;
use crate::signal::INTERFACES_REMOVED;
use crate::signal::OBJECT_MANAGER_INTERFACE;
use crate::signal::PROPERTIES_CHANGED;
use crate::signal::PROPERTIES_INTERFACE;

verus! {

/// A match rule of the bus library.
#[verifier::external_type_specification]
#[verifier::external_body]
pub struct ExMatchRule<'m>(zbus::MatchRule<'m>);

/// A match rule of the bus library that is still being built.
#[verifier::external_type_specification]
#[verifier::external_body]
pub struct ExMatchRuleBuilder<'m>(zbus::match_rule::Builder<'m>);

/// The service that reports on power.
pub const POWER_SERVICE: &'static str = "org.freedesktop.UPower";

/// The service that reports on Bluetooth.
pub const BLUETOOTH_SERVICE: &'static str = "org.bluez";

/// The object of the machine's battery.
pub const SYSTEM_BATTERY_PATH: &'static str = "/org/freedesktop/UPower/devices/battery_BAT0";

/// The builder that the bus library gives when `builder` is told the kind
/// of message.
pub uninterp spec fn kind_of(
    builder: zbus::match_rule::Builder<'static>,
    kind: MessageKind,
) -> zbus::match_rule::Builder<'static>;

/// The builder that the bus library gives when `builder` is told the sender.
pub uninterp spec fn sender_of(
    builder: zbus::match_rule::Builder<'static>,
    sender: Seq<char>,
) -> zbus::match_rule::Builder<'static>;

/// The builder that the bus library gives when `builder` is told the
/// interface.
pub uninterp spec fn interface_of(
    builder: zbus::match_rule::Builder<'static>,
    interface: Seq<char>,
) -> zbus::match_rule::Builder<'static>;

/// The builder that the bus library gives when `builder` is told the member.
pub uninterp spec fn member_of(
    builder: zbus::match_rule::Builder<'static>,
    member: Seq<char>,
) -> zbus::match_rule::Builder<'static>;

/// The builder that the bus library gives when `builder` is told the path.
pub uninterp spec fn path_of(
    builder: zbus::match_rule::Builder<'static>,
    path: Seq<char>,
) -> zbus::match_rule::Builder<'static>;

/// The rule that the bus library hands out of `builder`.
pub uninterp spec fn rule_of(builder: zbus::match_rule::Builder<'static>) -> zbus::MatchRule<
    'static,
>;

/// The kinds of message on the bus.
#[derive(Clone, Copy, Debug, PartialEq, Eq, Structural)]
pub enum MessageKind {
    MethodCall,
    MethodReturn,
    Error,
    Signal,
}

/// The messages that one match rule asks for: those of a kind, a sender, an
/// interface and a member, from one object or from any.
#[derive(Clone, Copy, Debug, PartialEq, Eq)]
pub struct SignalFilter {
    pub kind: MessageKind,
    pub sender: &'static str,
    pub interface: &'static str,
    pub member: &'static str,
    /// The object the signals come from, or `None` for any.
    pub path: Option<&'static str>,
}

impl SignalFilter {
    /// Whether every name of this filter is one that the bus takes.
    pub open spec fn well_named(&self) -> bool {
        &&& is_bus_name(self.sender@)
        &&& is_interface_name(self.interface@)
        &&& is_member_name(self.member@)
        &&& self.path matches Some(path) ==> is_object_path(path@)
    }

    /// `builder` told the path of this filter, where it names one.
    pub open spec fn with_path_of(
        &self,
        builder: zbus::match_rule::Builder<'static>,
    ) -> zbus::match_rule::Builder<'static> {
        match self.path {
            Some(path) => path_of(builder, path@),
            None => builder,
        }
    }

    /// The rule that the bus library makes of this filter from the builder
    /// `start`: `start` is told the kind, the sender, the interface, the
    /// member and the path of this filter, in this order, and the rule is
    /// handed out of what that gives.
    pub open spec fn rule_from(&self, start: zbus::match_rule::Builder<'static>) -> zbus::MatchRule<
        'static,
    > {
        rule_of(
            self.with_path_of(
                member_of(
                    interface_of(
                        sender_of(kind_of(start, self.kind), self.sender@),
                        self.interface@,
                    ),
                    self.member@,
                ),
            ),
        )
    }
}

/// The three filters: changed properties of the machine's battery, and the
/// interfaces that objects of the Bluetooth service gain and lose.
pub open spec fn signal_filters() -> Seq<SignalFilter> {
    seq![
        SignalFilter {
            kind: MessageKind::Signal,
            sender: POWER_SERVICE,
            interface: PROPERTIES_INTERFACE,
            member: PROPERTIES_CHANGED,
            path: Some(SYSTEM_BATTERY_PATH),
        },
        SignalFilter {
            kind: MessageKind::Signal,
            sender: BLUETOOTH_SERVICE,
            interface: OBJECT_MANAGER_INTERFACE,
            member: INTERFACES_ADDED,
            path: None,
        },
        SignalFilter {
            kind: MessageKind::Signal,
            sender: BLUETOOTH_SERVICE,
            interface: OBJECT_MANAGER_INTERFACE,
            member: INTERFACES_REMOVED,
            path: None,
        },
    ]
}

/// The bus takes every name of the three filters.
pub proof fn lemma_filters_well_named()
    ensures
        forall|i: int|
            0 <= i < signal_filters().len() ==> (#[trigger] signal_filters()[i]).well_named(),
{
    reveal_strlit("org.freedesktop.UPower");
    reveal_strlit("org.bluez");
    reveal_strlit("org.freedesktop.DBus.Properties");
    reveal_strlit("org.freedesktop.DBus.ObjectManager");
    reveal_strlit("PropertiesChanged");
    reveal_strlit("InterfacesAdded");
    reveal_strlit("InterfacesRemoved");
    reveal_strlit("/org/freedesktop/UPower/devices/battery_BAT0");
    // Each dotted name holds a dot.
    assert(POWER_SERVICE@[3] == '.');
    assert(BLUETOOTH_SERVICE@[3] == '.');
    assert(PROPERTIES_INTERFACE@[3] == '.');
    assert(OBJECT_MANAGER_INTERFACE@[3] == '.');
    assert(signal_filters()[0].well_named());
    assert(signal_filters()[1].well_named());
    assert(signal_filters()[2].well_named());
}

/// The filters to install.
pub fn subscription_filters() -> (filters: Vec<SignalFilter>)
    ensures
        filters@ == signal_filters(),
        forall|i: int| 0 <= i < filters@.len() ==> (#[trigger] filters@[i]).well_named(),
{
    proof {
        lemma_filters_well_named();
    }
    let mut filters: Vec<SignalFilter> = Vec::new();
    filters.push(
        SignalFilter {
            kind: MessageKind::Signal,
            sender: POWER_SERVICE,
            interface: PROPERTIES_INTERFACE,
            member: PROPERTIES_CHANGED,
            path: Some(SYSTEM_BATTERY_PATH),
        },
    );
    filters.push(
        SignalFilter {
            kind: MessageKind::Signal,
            sender: BLUETOOTH_SERVICE,
            interface: OBJECT_MANAGER_INTERFACE,
            member: INTERFACES_ADDED,
            path: None,
        },
    );
    filters.push(
        SignalFilter {
            kind: MessageKind::Signal,
            sender: BLUETOOTH_SERVICE,
            interface: OBJECT_MANAGER_INTERFACE,
            member: INTERFACES_REMOVED,
            path: None,
        },
    );
    assert(filters@ =~= signal_filters());
    filters
}

/// Calls `MatchRule::builder`, which starts a rule that matches everything.
#[verifier::external_body]
fn rule_builder() -> (builder: zbus::match_rule::Builder<'static>) {
    zbus::MatchRule::builder()
}

/// Calls `Builder::msg_type` with the kind of message as the bus library
/// writes it; it cannot fail. The contract names the builder it gives.
#[verifier::external_body]
fn with_kind(builder: zbus::match_rule::Builder<'static>, kind: MessageKind) -> (out:
    zbus::match_rule::Builder<'static>)
    ensures
        out == kind_of(builder, kind),
{
    builder.msg_type(
        match kind {
            MessageKind::MethodCall => zbus::message::Type::MethodCall,
            MessageKind::MethodReturn => zbus::message::Type::MethodReturn,
            MessageKind::Error => zbus::message::Type::Error,
            MessageKind::Signal => zbus::message::Type::Signal,
        },
    )
}

/// Calls `Builder::sender`, which fails where the text is no bus name. The
/// contract says which texts are taken, and names the builder it gives.
#[verifier::external_body]
fn with_sender(builder: zbus::match_rule::Builder<'static>, sender: &'static str) -> (out: Result<
    zbus::match_rule::Builder<'static>,
    zbus::Error,
>)
    ensures
        out is Ok <==> is_bus_name(sender@),
        out matches Ok(told) ==> told == sender_of(builder, sender@),
{
    builder.sender(sender)
}

/// Calls `Builder::interface`, which fails where the text is no interface
/// name. The contract says which texts are taken, and names the builder it
/// gives.
#[verifier::external_body]
fn with_interface(builder: zbus::match_rule::Builder<'static>, interface: &'static str) -> (out:
    Result<zbus::match_rule::Builder<'static>, zbus::Error>)
    ensures
        out is Ok <==> is_interface_name(interface@),
        out matches Ok(told) ==> told == interface_of(builder, interface@),
{
    builder.interface(interface)
}

/// Calls `Builder::member`, which fails where the text is no member name.
/// The contract says which texts are taken, and names the builder it gives.
#[verifier::external_body]
fn with_member(builder: zbus::match_rule::Builder<'static>, member: &'static str) -> (out: Result<
    zbus::match_rule::Builder<'static>,
    zbus::Error,
>)
    ensures
        out is Ok <==> is_member_name(member@),
        out matches Ok(told) ==> told == member_of(builder, member@),
{
    builder.member(member)
}

/// Calls `Builder::path`, which fails where the text is no object path. The
/// contract says which texts are taken, and names the builder it gives.
#[verifier::external_body]
fn with_path(builder: zbus::match_rule::Builder<'static>, path: &'static str) -> (out: Result<
    zbus::match_rule::Builder<'static>,
    zbus::Error,
>)
    ensures
        out is Ok <==> is_object_path(path@),
        out matches Ok(told) ==> told == path_of(builder, path@),
{
    builder.path(path)
}

/// Calls `Builder::build`, which hands out the rule; it cannot fail. The
/// contract names the rule.
#[verifier::external_body]
fn finish(builder: zbus::match_rule::Builder<'static>) -> (rule: zbus::MatchRule<'static>)
    ensures
        rule == rule_of(builder),
{
    builder.build()
}

impl SignalFilter {
    /// Whether every name of this filter is one that the bus takes.
    pub fn is_well_named(&self) -> (named: bool)
        ensures
            named == self.well_named(),
    {
        valid_bus_name(self.sender) && valid_interface_name(self.interface) && valid_member_name(
            self.member,
        ) && match self.path {
            Some(path) => valid_object_path(path),
            None => true,
        }
    }

    /// Makes the match rule of this filter: for its kind of message, from
    /// its sender, on its interface, with its member and, where it names
    /// one, from its object. The rule is made where the bus takes every
    /// name, and is the one the bus library builds of these from a fresh
    /// builder; the first name that is not taken gives its error.
    pub fn match_rule(&self) -> (out: Result<zbus::MatchRule<'static>, AppError>)
        ensures
            out is Ok <==> self.well_named(),
            out matches Ok(rule) ==> exists|start: zbus::match_rule::Builder<'static>|
                rule == #[trigger] self.rule_from(start),
            out matches Err(err) ==> err is Zbus,
    {
        let start = rule_builder();
        let builder = with_kind(start, self.kind);
        let builder = match with_sender(builder, self.sender) {
            Ok(builder) => builder,
            Err(err) => {
                return Err(AppError::Zbus(err));
            },
        };
        let builder = match with_interface(builder, self.interface) {
            Ok(builder) => builder,
            Err(err) => {
                return Err(AppError::Zbus(err));
            },
        };
        let builder = match with_member(builder, self.member) {
            Ok(builder) => builder,
            Err(err) => {
                return Err(AppError::Zbus(err));
            },
        };
        let builder = match self.path {
            Some(path) => match with_path(builder, path) {
                Ok(builder) => builder,
                Err(err) => {
                    return Err(AppError::Zbus(err));
                },
            },
            None => builder,
        };
        let rule = finish(builder);
        assert(rule == self.rule_from(start));
        Ok(rule)
    }
}

} // verus!
