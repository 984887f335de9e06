//! The transport seen by the controller: wire messages, device descriptors,
//! the error taxonomy of a backend, and the port traits a backend implements.
use vstd::prelude::*;

verus! {

/// A three-byte wire message: status (message class), key, and payload.
#[derive(Clone, Copy, Debug, PartialEq, Eq, Structural)]
pub struct LaunchMessage {
    pub status: u8,
    pub data1: u8,
    pub data2: u8,
}

/// Whether a device delivers messages (`Input`) or takes them (`Output`).
#[derive(Clone, Copy, Debug, PartialEq, Eq, Structural)]
pub enum Direction {
    Input,
    Output,
}

/// Description of a MIDI device as a backend reports it.
#[derive(Debug)]
pub struct DeviceInfo {
    /// Unique identifier.
    pub id: i32,
    /// Name of the device.
    pub name: String,
    /// Whether the device is an input or an output.
    pub dir: Direction,
}

impl DeviceInfo {
    pub fn is_input(&self) -> (r: bool)
        ensures
            r == (self.dir == Direction::Input),
    {
        self.dir == Direction::Input
    }

    pub fn is_output(&self) -> (r: bool)
        ensures
            r == (self.dir == Direction::Output),
    {
        self.dir == Direction::Output
    }
}

/// A device named either by its name or by its numeric id.
pub enum Identifier {
    String(String),
    Number(i32),
}

impl Identifier {
    /// Identifies the device with this name.
    pub fn from_name(name: &str) -> (r: Identifier)
        ensures
            r matches Identifier::String(n) && n@ == name@,
    {
        Identifier::String(name.to_owned())
    }

}

impl From<i32> for Identifier {
    fn from(value: i32) -> (r: Identifier) {
        Identifier::Number(value)
    }
}

impl vstd::std_specs::convert::FromSpecImpl<i32> for Identifier {
    open spec fn obeys_from_spec() -> bool {
        true
    }

    open spec fn from_spec(v: i32) -> Identifier {
        Identifier::Number(v)
    }
}

/// Whether `d` is a device of direction `dir` that `ident` names.
pub open spec fn device_matches(d: DeviceInfo, dir: Direction, ident: Identifier) -> bool {
    d.dir == dir && match ident {
        Identifier::String(n) => d.name@ == n@,
        Identifier::Number(id) => d.id == id,
    }
}

/// Index of the first device in `devs` of direction `dir` that `ident` names,
/// or `None` where there is none.
pub fn find_device(devs: &Vec<DeviceInfo>, dir: Direction, ident: &Identifier) -> (r: Option<
    usize,
>)
    ensures
        r matches Some(i) ==> i < devs@.len() && device_matches(devs@[i as int], dir, *ident)
            && forall|j: int| 0 <= j < i ==> !device_matches(#[trigger] devs@[j], dir, *ident),
        r is None ==> forall|j: int|
            0 <= j < devs@.len() ==> !device_matches(#[trigger] devs@[j], dir, *ident),
{
    let mut i: usize = 0;
    while i < devs.len()
        invariant
            i <= devs@.len(),
            forall|j: int| 0 <= j < i ==> !device_matches(#[trigger] devs@[j], dir, *ident),
        decreases devs@.len() - i,
    {
        let d = &devs[i];
        let hit = d.dir == dir && match ident {
            Identifier::String(n) => d.name == *n,
            Identifier::Number(id) => d.id == *id,
        };
        if hit {
            return Some(i);
        }
        i = i + 1;
    }
    None
}

/// Errors a backend reports, each with a human-readable message.
#[derive(Debug)]
pub enum MidiInterfaceError {
    Unknown(String),
    Unimplemented(String),
    NoDefaultDevice(String),
    NotAnInputDevice(String),
    NotAnOutputDevice(String),
    Invalid(String),
    GenericBackendErr(String),
}

impl MidiInterfaceError {
    /// The message that the error carries.
    pub open spec fn spec_message(&self) -> String {
        match self {
            MidiInterfaceError::Unknown(m) => *m,
            MidiInterfaceError::Unimplemented(m) => *m,
            MidiInterfaceError::NoDefaultDevice(m) => *m,
            MidiInterfaceError::NotAnInputDevice(m) => *m,
            MidiInterfaceError::NotAnOutputDevice(m) => *m,
            MidiInterfaceError::Invalid(m) => *m,
            MidiInterfaceError::GenericBackendErr(m) => *m,
        }
    }

    /// The message that the error carries.
    pub fn message(&self) -> (r: &String)
        ensures
            *r == self.spec_message(),
    {
        match self {
            MidiInterfaceError::Unknown(m) => m,
            MidiInterfaceError::Unimplemented(m) => m,
            MidiInterfaceError::NoDefaultDevice(m) => m,
            MidiInterfaceError::NotAnInputDevice(m) => m,
            MidiInterfaceError::NotAnOutputDevice(m) => m,
            MidiInterfaceError::Invalid(m) => m,
            MidiInterfaceError::GenericBackendErr(m) => m,
        }
    }

    /// Whether the error says that no device of the asked direction was found.
    pub fn is_missing_device(&self) -> (r: bool)
        ensures
            r == (self is NotAnInputDevice || self is NotAnOutputDevice),
    {
        match self {
            MidiInterfaceError::NotAnInputDevice(_) => true,
            MidiInterfaceError::NotAnOutputDevice(_) => true,
            _ => false,
        }
    }
}

/// A port that takes messages for the device.
pub trait Output {
    /// Writes one message.
    fn write_message(&mut self, msg: LaunchMessage) -> Result<(), MidiInterfaceError>;

    /// Writes several messages, in order.
    fn write_messages(&mut self, msgs: Vec<LaunchMessage>) -> Result<(), MidiInterfaceError>;
}

/// A port that delivers messages from the device.
pub trait Input {
    /// Whether messages are waiting to be read.
    fn poll(&self) -> Result<bool, MidiInterfaceError>;

    /// Reads at most `count` messages; `None` where none was available.
    fn read_n(&self, count: usize) -> Result<Option<Vec<LaunchMessage>>, MidiInterfaceError>;
}

/// A MIDI backend: lists devices and opens their ports.
pub trait MidiInterface<'a> {
    type MidiInput: Input + 'a;

    type MidiOutput: Output + 'a;

    /// All devices the backend knows.
    fn get_devices(&self) -> Result<Vec<DeviceInfo>, MidiInterfaceError>;

    /// The input named by `identifier`; an error where there is none.
    fn get_input(&'a self, identifier: Identifier) -> Result<Self::MidiInput, MidiInterfaceError>;

    /// The output named by `identifier`; an error where there is none.
    fn get_output(&'a self, identifier: Identifier) -> Result<
        Self::MidiOutput,
        MidiInterfaceError,
    >;

    /// The input and the output that share the name `name`.
    fn get_in_out(&'a self, name: &str) -> Result<
        (Self::MidiInput, Self::MidiOutput),
        MidiInterfaceError,
    >;

    /// The platform's default input.
    fn get_default_input(&'a self) -> Result<Self::MidiInput, MidiInterfaceError>;

    /// The platform's default output.
    fn get_default_output(&'a self) -> Result<Self::MidiOutput, MidiInterfaceError>;
}

} // verus!
