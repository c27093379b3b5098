//! Identifiers of actions and what the library registers.
use vstd::prelude::*;
use vstd::std_specs::convert::FromSpecImpl;

verus! {

/// The number of an action.
#[derive(Debug, Clone, Copy, PartialEq, Eq, PartialOrd, Ord, Hash, Structural)]
pub struct CommandId {
    id: u32,
}

impl CommandId {
    /// The number.
    pub closed spec fn spec_id(self) -> u32 {
        self.id
    }

    pub fn new(id: u32) -> (r: Self)
        ensures
            r.spec_id() == id,
    {
        CommandId { id }
    }

    pub fn get(&self) -> (r: u32)
        ensures
            r == self.spec_id(),
    {
        self.id
    }
}

impl From<u32> for CommandId {
    fn from(id: u32) -> (r: Self) {
        CommandId { id }
    }
}

impl FromSpecImpl<u32> for CommandId {
    open spec fn obeys_from_spec() -> bool {
        true
    }

    closed spec fn from_spec(v: u32) -> CommandId {
        CommandId { id: v }
    }
}

/// Converting a number to a `CommandId` and back gives the number; the
/// `CommandId` made from a number holds it.
pub proof fn law_command_id_from(v: u32, x: CommandId)
    ensures
        <CommandId as vstd::std_specs::convert::FromSpec<u32>>::from_spec(v).spec_id() == v,
        <u32 as vstd::std_specs::convert::FromSpec<CommandId>>::from_spec(x) == x.spec_id(),
{
}

impl From<CommandId> for u32 {
    fn from(value: CommandId) -> (r: u32) {
        value.id
    }
}

impl FromSpecImpl<CommandId> for u32 {
    open spec fn obeys_from_spec() -> bool {
        true
    }

    closed spec fn from_spec(v: CommandId) -> u32 {
        v.id
    }
}

/// The number of an action section.
#[derive(Debug, Clone, Copy, PartialEq, Eq, PartialOrd, Ord, Hash, Structural)]
pub struct SectionId {
    id: u32,
}

impl SectionId {
    /// The number.
    pub closed spec fn spec_id(self) -> u32 {
        self.id
    }

    pub fn new(id: u32) -> (r: Self)
        ensures
            r.spec_id() == id,
    {
        SectionId { id }
    }

    pub fn get(&self) -> (r: u32)
        ensures
            r == self.spec_id(),
    {
        self.id
    }
}

impl From<u32> for SectionId {
    fn from(id: u32) -> (r: Self) {
        SectionId { id }
    }
}

impl FromSpecImpl<u32> for SectionId {
    open spec fn obeys_from_spec() -> bool {
        true
    }

    closed spec fn from_spec(v: u32) -> SectionId {
        SectionId { id: v }
    }
}

/// Converting a number to a `SectionId` and back gives the number; the
/// `SectionId` made from a number holds it.
pub proof fn law_section_id_from(v: u32, x: SectionId)
    ensures
        <SectionId as vstd::std_specs::convert::FromSpec<u32>>::from_spec(v).spec_id() == v,
        <u32 as vstd::std_specs::convert::FromSpec<SectionId>>::from_spec(x) == x.spec_id(),
{
}

impl From<SectionId> for u32 {
    fn from(value: SectionId) -> (r: u32) {
        value.id
    }
}

impl FromSpecImpl<SectionId> for u32 {
    open spec fn obeys_from_spec() -> bool {
        true
    }

    closed spec fn from_spec(v: SectionId) -> u32 {
        v.id
    }
}

/// An action this library registered.
#[derive(Debug, PartialEq, PartialOrd, Ord, Eq, Structural)]
pub struct RegisteredAction {
    // For identifying the registered command (= the functions to be executed)
    pub command_id: CommandId,
}

/// The kinds of action.
#[derive(Debug, Clone, Copy, PartialEq, Eq, Structural)]
pub enum ActionKind {
    NotToggleable,
}

/// A key binding this library registered.
#[derive(Debug, PartialEq, Eq, Structural)]
pub struct RegisteredAccel {
    pub command_id: CommandId,
}

} // verus!
