use vstd::prelude::*;

use crate::frame_id::{FrameFormat, FrameId, FrameIdError, is_frame_id_value, lemma_frame_id_of_view};
use crate::node::NodeId;
use crate::signal::SignalId;

verus! {

/// The identifier under which a database holds a message.
#[derive(Copy, Clone, Hash, PartialEq, Eq, Structural, Debug)]
pub struct MessageId {
    id: u64,
}

impl View for MessageId {
    type V = u64;

    closed spec fn view(&self) -> u64 {
        self.id
    }
}

impl MessageId {
    pub fn new(input: u64) -> (res: Self)
        ensures
            res@ == input,
    {
        Self { id: input }
    }

    /// The number behind the identifier.
    pub(crate) fn value(&self) -> (res: u64)
        ensures
            res == self@,
    {
        self.id
    }
}

/// The message identifier with the number `input`.
pub closed spec fn message_id_of(input: u64) -> MessageId {
    MessageId { id: input }
}

impl From<u64> for MessageId {
    fn from(input: u64) -> (res: MessageId)
        ensures
            res@ == input,
    {
        MessageId::new(input)
    }
}

impl vstd::std_specs::convert::FromSpecImpl<u64> for MessageId {
    open spec fn obeys_from_spec() -> bool {
        true
    }

    open spec fn from_spec(v: u64) -> MessageId {
        message_id_of(v)
    }
}

/// The largest identifier of an 11-bit (standard) frame.
pub const MAX_STANDARD_FRAME_ID: u32 = 0x7FF;

/// Formats whose frames carry an 11-bit identifier.
pub open spec fn is_standard_format(f: FrameFormat) -> bool {
    f == FrameFormat::CANopen || f == FrameFormat::StandardCan || f == FrameFormat::StandardCanFd
}

/// Formats that carry up to 64 bytes of payload (CAN FD).
pub open spec fn is_fd_format(f: FrameFormat) -> bool {
    f == FrameFormat::StandardCanFd || f == FrameFormat::ExtendedCanFd
}

/// The identifier `id` can be sent in a frame of format `f`.
pub open spec fn frame_id_fits(id: u32, f: FrameFormat) -> bool {
    is_standard_format(f) ==> id <= MAX_STANDARD_FRAME_ID
}

/// The longest payload, in bytes, of a frame of format `f`.
pub open spec fn max_payload_length(f: FrameFormat) -> u8 {
    if is_fd_format(f) {
        64
    } else {
        8
    }
}

/// A payload of `len` bytes fits a frame of format `f`.
pub open spec fn payload_fits(len: u8, f: FrameFormat) -> bool {
    len <= max_payload_length(f)
}

/// What a message is: the values of its fields.
pub struct MessageView {
    pub frame_id: u32,
    pub frame_format: FrameFormat,
    pub name: Seq<char>,
    pub payload_length: u8,
    pub sender: Option<NodeId>,
    pub signals: Seq<SignalId>,
}

/// A message that a database may hold: its identifier has 29 bits and
/// fits its format, its payload fits its format, and no signal is listed twice.
pub open spec fn message_is_consistent(m: MessageView) -> bool {
    &&& is_frame_id_value(m.frame_id)
    &&& frame_id_fits(m.frame_id, m.frame_format)
    &&& payload_fits(m.payload_length, m.frame_format)
    &&& m.signals.no_duplicates()
}

/// Why `Message::new` refuses its arguments, if it does.
pub open spec fn new_message_error(frame_id: u32, frame_format: FrameFormat, length: u8) -> Option<
    MessageError,
> {
    if !is_frame_id_value(frame_id) {
        Some(MessageError::InvalidFrameId(FrameIdError::OutOfRange))
    } else if !frame_id_fits(frame_id, frame_format) {
        Some(MessageError::FrameTooLargeForFormat)
    } else if !payload_fits(length, frame_format) {
        Some(MessageError::PayloadTooLong)
    } else {
        None
    }
}

/// The outcome of changing the identifier of `m` to `id`.
pub open spec fn with_frame_id(m: MessageView, id: u32) -> Result<MessageView, MessageError> {
    if frame_id_fits(id, m.frame_format) {
        Ok(MessageView { frame_id: id, ..m })
    } else {
        Err(MessageError::FrameTooLargeForFormat)
    }
}

/// The outcome of changing the payload length of `m` to `len`.
pub open spec fn with_payload_length(m: MessageView, len: u8) -> Result<MessageView, MessageError> {
    if payload_fits(len, m.frame_format) {
        Ok(MessageView { payload_length: len, ..m })
    } else {
        Err(MessageError::PayloadTooLong)
    }
}

/// The outcome of changing the format of `m` to `f`: the payload is checked first.
pub open spec fn with_frame_format(m: MessageView, f: FrameFormat) -> Result<
    MessageView,
    MessageError,
> {
    if !payload_fits(m.payload_length, f) {
        Err(MessageError::PayloadTooLong)
    } else if !frame_id_fits(m.frame_id, f) {
        Err(MessageError::FrameTooLargeForFormat)
    } else {
        Ok(MessageView { frame_format: f, ..m })
    }
}

/// `m` with the signal list `signals`.
pub open spec fn with_signals(m: MessageView, signals: Seq<SignalId>) -> MessageView {
    MessageView { signals: signals, ..m }
}

/// The message that `Message::new` builds from its arguments.
pub open spec fn new_message_view(
    name: Seq<char>,
    frame_id: u32,
    frame_format: FrameFormat,
    length: u8,
    sender: Option<NodeId>,
) -> MessageView {
    MessageView {
        frame_id,
        frame_format,
        name,
        payload_length: length,
        sender,
        signals: Seq::empty(),
    }
}

/// The outcome of applying `cmd` to `m`: the changed message, or why it is refused.
pub open spec fn message_after_command(m: MessageView, cmd: MessageCommand) -> Result<
    MessageView,
    MessageError,
> {
    match cmd {
        MessageCommand::Rename(new_name) => Ok(MessageView { name: new_name@, ..m }),
        MessageCommand::SetFrameId(f) => with_frame_id(m, f@),
        MessageCommand::SetFrameFormat(f) => with_frame_format(m, f),
        MessageCommand::SetPayloadLength(len) => with_payload_length(m, len),
        MessageCommand::SetSender(sender) => Ok(MessageView { sender: sender, ..m }),
    }
}

/// The formats whose frames carry a 29-bit identifier.
pub open spec fn is_extended_kind(f: FrameFormat) -> bool {
    f is ExtendedCan || f is ExtendedCanFd || f is J1939
}

/// `Message::new` accepts exactly an identifier below 2^29 that is at most
/// 0x7FF unless the format is extended, and a payload of at most 8 bytes, or
/// 64 for the CAN FD formats; each refusal names the first limit broken.
pub proof fn lemma_new_message_outcome(id: u32, f: FrameFormat, len: u8)
    ensures
        (new_message_error(id, f, len) is None) == (id < 0x2000_0000 && (id <= 0x7FF
            || is_extended_kind(f)) && (len <= 8 || (len <= 64 && (f is StandardCanFd
            || f is ExtendedCanFd)))),
        id >= 0x2000_0000 ==> new_message_error(id, f, len) == Some(
            MessageError::InvalidFrameId(FrameIdError::OutOfRange),
        ),
        id < 0x2000_0000 && id > 0x7FF && !is_extended_kind(f) ==> new_message_error(id, f, len)
            == Some(MessageError::FrameTooLargeForFormat),
        id < 0x2000_0000 && (id <= 0x7FF || is_extended_kind(f)) && len > 64
            ==> new_message_error(id, f, len) == Some(MessageError::PayloadTooLong),
        id < 0x2000_0000 && (id <= 0x7FF || is_extended_kind(f)) && len > 8 && !(
        f is StandardCanFd || f is ExtendedCanFd) ==> new_message_error(id, f, len) == Some(
            MessageError::PayloadTooLong,
        ),
{
}

/// A message that `Message::new` accepts holds its arguments as they were
/// given, and no signal.
pub proof fn lemma_new_message_holds_arguments(
    name: Seq<char>,
    id: u32,
    f: FrameFormat,
    len: u8,
    sender: Option<NodeId>,
)
    ensures
        new_message_view(name, id, f, len, sender).name == name,
        new_message_view(name, id, f, len, sender).frame_id == id,
        new_message_view(name, id, f, len, sender).frame_format == f,
        new_message_view(name, id, f, len, sender).payload_length == len,
        new_message_view(name, id, f, len, sender).sender == sender,
        new_message_view(name, id, f, len, sender).signals.len() == 0,
{
}

/// Giving a message a new identifier is accepted exactly when the identifier
/// is at most 0x7FF or the format is extended; it then changes the identifier
/// and nothing else, and is otherwise refused as too large.
pub proof fn lemma_set_frame_id_outcome(m: MessageView, f: FrameId)
    ensures
        (message_after_command(m, MessageCommand::SetFrameId(f)) is Ok) == (f@ <= 0x7FF
            || is_extended_kind(m.frame_format)),
        message_after_command(m, MessageCommand::SetFrameId(f)) matches Ok(t) ==> t
            == (MessageView { frame_id: f@, ..m }),
        message_after_command(m, MessageCommand::SetFrameId(f)) matches Err(e) ==> e
            == MessageError::FrameTooLargeForFormat,
{
}

/// A new payload length is accepted exactly when it is at most 8 bytes, or 64
/// for the CAN FD formats; it then changes the length and nothing else.
pub proof fn lemma_set_payload_length_outcome(m: MessageView, len: u8)
    ensures
        (message_after_command(m, MessageCommand::SetPayloadLength(len)) is Ok) == (len <= 8 || (
        len <= 64 && (m.frame_format is StandardCanFd || m.frame_format is ExtendedCanFd))),
        message_after_command(m, MessageCommand::SetPayloadLength(len)) matches Ok(t) ==> t == (
        MessageView { payload_length: len, ..m }),
        message_after_command(m, MessageCommand::SetPayloadLength(len)) matches Err(e) ==> e
            == MessageError::PayloadTooLong,
{
}

/// A new format is accepted exactly when the payload and the identifier both
/// fit it; the payload is reported first; it changes the format and nothing else.
pub proof fn lemma_set_frame_format_outcome(m: MessageView, f: FrameFormat)
    ensures
        (message_after_command(m, MessageCommand::SetFrameFormat(f)) is Ok) == ((m.payload_length
            <= 8 || (m.payload_length <= 64 && (f is StandardCanFd || f is ExtendedCanFd))) && (
        m.frame_id <= 0x7FF || is_extended_kind(f))),
        message_after_command(m, MessageCommand::SetFrameFormat(f)) matches Ok(t) ==> t == (
        MessageView { frame_format: f, ..m }),
        !(m.payload_length <= 8 || (m.payload_length <= 64 && (f is StandardCanFd
            || f is ExtendedCanFd))) ==> message_after_command(m, MessageCommand::SetFrameFormat(f))
            == Err::<MessageView, MessageError>(MessageError::PayloadTooLong),
        (m.payload_length <= 8 || (m.payload_length <= 64 && (f is StandardCanFd
            || f is ExtendedCanFd))) && !(m.frame_id <= 0x7FF || is_extended_kind(f))
            ==> message_after_command(m, MessageCommand::SetFrameFormat(f)) == Err::<
            MessageView,
            MessageError,
        >(MessageError::FrameTooLargeForFormat),
{
}

/// Renaming a message and setting its sender always succeed and change only
/// the name, or only the sender.
pub proof fn lemma_rename_and_set_sender_always_succeed(
    m: MessageView,
    name: String,
    sender: Option<NodeId>,
)
    ensures
        message_after_command(m, MessageCommand::Rename(name)) == Ok::<MessageView, MessageError>(
            MessageView { name: name@, ..m },
        ),
        message_after_command(m, MessageCommand::SetSender(sender)) == Ok::<
            MessageView,
            MessageError,
        >(MessageView { sender: sender, ..m }),
{
}

/// A CAN message: a frame identifier and format, a name, a payload length,
/// an optional sending node and the signals it carries.
pub struct Message {
    frame_id: FrameId,
    frame_format: FrameFormat,
    name: String,
    payload_length: u8,
    sender: Option<NodeId>,
    signals: Vec<SignalId>,
}

impl View for Message {
    type V = MessageView;

    closed spec fn view(&self) -> MessageView {
        MessageView {
            frame_id: self.frame_id@,
            frame_format: self.frame_format,
            name: self.name@,
            payload_length: self.payload_length,
            sender: self.sender,
            signals: self.signals@,
        }
    }
}

/// The index of `id` in `ids`, if it is there.
fn position_of(ids: &Vec<SignalId>, id: SignalId) -> (res: Option<usize>)
    ensures
        match res {
            Some(i) => i < ids@.len() && ids@[i as int] == id,
            None => !ids@.contains(id),
        },
{
    let mut i: usize = 0;
    while i < ids.len()
        invariant
            i <= ids@.len(),
            forall|j: int| 0 <= j < i ==> ids@[j] != id,
        decreases ids@.len() - i,
    {
        if ids[i] == id {
            return Some(i);
        }
        i = i + 1;
    }
    None
}

impl Message {
    #[verifier::type_invariant]
    pub open spec fn consistent(self) -> bool {
        message_is_consistent(self@)
    }

    pub fn new(
        name: &str,
        frame_id: u32,
        frame_format: FrameFormat,
        length: u8,
        sender: Option<NodeId>,
    ) -> (res: Result<Self, MessageError>)
        ensures
            match new_message_error(frame_id, frame_format, length) {
                Some(e) => res == Err::<Self, MessageError>(e),
                None => res matches Ok(m) && m@ == new_message_view(
                    name@,
                    frame_id,
                    frame_format,
                    length,
                    sender,
                ),
            },
            res matches Ok(m) ==> message_is_consistent(m@),
    {
        proof {
            lemma_frame_id_of_view(frame_id);
        }
        let f = match FrameId::try_from(frame_id) {
            Ok(f) => f,
            Err(e) => {
                return Err(MessageError::from(e));
            },
        };
        if !Self::validate_frame_id(&f, frame_format) {
            return Err(MessageError::FrameTooLargeForFormat);
        }
        if !Self::validate_payload_length(length, frame_format) {
            return Err(MessageError::PayloadTooLong);
        }
        Ok(Self {
            frame_id: f,
            frame_format: frame_format,
            name: name.to_owned(),
            payload_length: length,
            sender: sender,
            signals: Vec::new(),
        })
    }

    pub(crate) fn set_frame_id(&mut self, f_id: FrameId) -> (res: Result<(), MessageError>)
        ensures
            match with_frame_id(old(self)@, f_id@) {
                Ok(m) => res is Ok && final(self)@ == m,
                Err(e) => res == Err::<(), MessageError>(e) && final(self)@ == old(self)@,
            },
    {
        proof {
            use_type_invariant(&*self);
        }
        if !Self::validate_frame_id(&f_id, self.frame_format) {
            return Err(MessageError::FrameTooLargeForFormat);
        }
        self.frame_id = f_id;
        Ok(())
    }

    pub fn frame_id(&self) -> (res: &FrameId)
        ensures
            res@ == self@.frame_id,
    {
        &self.frame_id
    }

    pub(crate) fn set_payload_length(&mut self, length: u8) -> (res: Result<(), MessageError>)
        ensures
            match with_payload_length(old(self)@, length) {
                Ok(m) => res is Ok && final(self)@ == m,
                Err(e) => res == Err::<(), MessageError>(e) && final(self)@ == old(self)@,
            },
    {
        proof {
            use_type_invariant(&*self);
        }
        if !Self::validate_payload_length(length, self.frame_format) {
            return Err(MessageError::PayloadTooLong);
        }
        self.payload_length = length;
        Ok(())
    }

    pub fn payload_length(&self) -> (res: u8)
        ensures
            res == self@.payload_length,
    {
        self.payload_length
    }

    pub(crate) fn set_frame_format(&mut self, frame_format: FrameFormat) -> (res: Result<
        (),
        MessageError,
    >)
        ensures
            match with_frame_format(old(self)@, frame_format) {
                Ok(m) => res is Ok && final(self)@ == m,
                Err(e) => res == Err::<(), MessageError>(e) && final(self)@ == old(self)@,
            },
    {
        proof {
            use_type_invariant(&*self);
        }
        if !Self::validate_payload_length(self.payload_length, frame_format) {
            return Err(MessageError::PayloadTooLong);
        }
        if !Self::validate_frame_id(self.frame_id(), frame_format) {
            return Err(MessageError::FrameTooLargeForFormat);
        }
        self.frame_format = frame_format;
        Ok(())
    }

    pub fn frame_format(&self) -> (res: FrameFormat)
        ensures
            res == self@.frame_format,
    {
        self.frame_format
    }

    pub fn name(&self) -> (res: &str)
        ensures
            res@ == self@.name,
    {
        self.name.as_str()
    }

    pub fn sender(&self) -> (res: Option<NodeId>)
        ensures
            res == self@.sender,
    {
        self.sender
    }

    pub fn apply_command(&mut self, cmd: MessageCommand) -> (res: Result<(), MessageError>)
        ensures
            match message_after_command(old(self)@, cmd) {
                Ok(m) => res is Ok && final(self)@ == m,
                Err(e) => res == Err::<(), MessageError>(e) && final(self)@ == old(self)@,
            },
            message_is_consistent(final(self)@),
    {
        proof {
            use_type_invariant(&*self);
        }
        match cmd {
            MessageCommand::Rename(new_name) => {
                self.name = new_name;
            },
            MessageCommand::SetFrameId(new_frame_id) => {
                self.set_frame_id(new_frame_id)?;
            },
            MessageCommand::SetFrameFormat(new_frame_format) => {
                self.set_frame_format(new_frame_format)?;
            },
            MessageCommand::SetPayloadLength(new_length) => {
                self.set_payload_length(new_length)?;
            },
            MessageCommand::SetSender(new_sender) => {
                self.sender = new_sender;
            },
        }
        proof {
            use_type_invariant(&*self);
        }
        Ok(())
    }

    fn validate_frame_id(f_id: &FrameId, f_format: FrameFormat) -> (res: bool)
        ensures
            res == frame_id_fits(f_id@, f_format),
            is_frame_id_value(f_id@),
    {
        let id = f_id.get_id();
        match f_format {
            FrameFormat::CANopen | FrameFormat::StandardCan | FrameFormat::StandardCanFd => {
                if id > MAX_STANDARD_FRAME_ID {
                    return false;
                }
            },
            _ => {},
        }
        true
    }

    fn validate_payload_length(len: u8, f_format: FrameFormat) -> (res: bool)
        ensures
            res == payload_fits(len, f_format),
    {
        let mut max_length: u8 = 8;
        match f_format {
            FrameFormat::StandardCanFd | FrameFormat::ExtendedCanFd => {
                max_length = 64;
            },
            _ => {},
        }
        if len > max_length {
            return false;
        }
        true
    }

    pub fn add_signal_id(&mut self, id: SignalId) -> (res: Result<(), MessageError>)
        ensures
            old(self)@.signals.contains(id) ==> res == Err::<(), MessageError>(
                MessageError::SignalAlreadyPresent(id),
            ) && final(self)@ == old(self)@,
            !old(self)@.signals.contains(id) ==> res is Ok && final(self)@ == with_signals(
                old(self)@,
                old(self)@.signals.push(id),
            ),
    {
        proof {
            use_type_invariant(&*self);
        }
        if position_of(&self.signals, id).is_some() {
            return Err(MessageError::SignalAlreadyPresent(id));
        }
        let mut signals = Vec::new();
        std::mem::swap(&mut signals, &mut self.signals);
        signals.push(id);
        self.signals = signals;
        Ok(())
    }

    pub fn remove_signal_id(&mut self, id: SignalId) -> (res: Result<(), MessageError>)
        ensures
            !old(self)@.signals.contains(id) ==> res == Err::<(), MessageError>(
                MessageError::NoSignalWithGivenId(id),
            ) && final(self)@ == old(self)@,
            old(self)@.signals.contains(id) ==> res is Ok && (exists|i: int|
                0 <= i < old(self)@.signals.len() && old(self)@.signals[i] == id && final(self)@
                    == with_signals(old(self)@, old(self)@.signals.remove(i))),
    {
        proof {
            use_type_invariant(&*self);
        }
        if let Some(pos) = position_of(&self.signals, id) {
            let mut signals = Vec::new();
            std::mem::swap(&mut signals, &mut self.signals);
            signals.remove(pos);
            self.signals = signals;
            Ok(())
        } else {
            Err(MessageError::NoSignalWithGivenId(id))
        }
    }
}

/// Why a message refuses a value or a change.
#[derive(PartialEq, Eq, Debug)]
pub enum MessageError {
    InvalidFrameId(FrameIdError),
    FrameTooLargeForFormat,
    PayloadTooLong,
    SignalAlreadyPresent(SignalId),
    NoSignalWithGivenId(SignalId),
}

impl From<FrameIdError> for MessageError {
    fn from(error: FrameIdError) -> (res: Self)
        ensures
            res == MessageError::InvalidFrameId(error),
    {
        MessageError::InvalidFrameId(error)
    }
}

impl vstd::std_specs::convert::FromSpecImpl<FrameIdError> for MessageError {
    open spec fn obeys_from_spec() -> bool {
        true
    }

    open spec fn from_spec(v: FrameIdError) -> MessageError {
        MessageError::InvalidFrameId(v)
    }
}

/// A change to a message.
#[derive(Debug, Clone, PartialEq)]
pub enum MessageCommand {
    Rename(String),
    SetFrameId(FrameId),
    SetFrameFormat(FrameFormat),
    SetPayloadLength(u8),
    SetSender(Option<NodeId>),
}

} // verus!
