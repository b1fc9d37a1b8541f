use std::collections::HashMap;

use vstd::prelude::*;

use crate::message::{
    Message,
    MessageCommand,
    MessageError,
    MessageId,
    MessageView,
    message_after_command,
    message_is_consistent,
};
use crate::frame_id::FrameId;
use crate::node::{Node, NodeCommand, NodeError, NodeId, node_after_command};

verus! {

broadcast use vstd::std_specs::hash::group_hash_axioms;

/// What a database holds: the name of each node and each message, by the
/// number of their identifiers, and the numbers the next ones will get.
pub struct DbcView {
    pub nodes: Map<u64, Seq<char>>,
    pub next_node_id: u64,
    pub messages: Map<u64, MessageView>,
    pub next_msg_id: u64,
}

/// Some node other than the one numbered `except` is called `name`.
pub open spec fn node_name_used(nodes: Map<u64, Seq<char>>, name: Seq<char>, except: Option<u64>) -> bool {
    exists|k: u64| #[trigger] nodes.contains_key(k) && except != Some(k) && nodes[k] == name
}

/// Some message other than the one numbered `except` has the frame identifier `frame_id`.
pub open spec fn frame_id_used(messages: Map<u64, MessageView>, frame_id: u32, except: Option<u64>) -> bool {
    exists|k: u64|
        #[trigger] messages.contains_key(k) && except != Some(k) && messages[k].frame_id == frame_id
}

/// No two nodes share a name.
pub open spec fn node_names_unique(nodes: Map<u64, Seq<char>>) -> bool {
    forall|a: u64, b: u64|
        #[trigger] nodes.contains_key(a) && #[trigger] nodes.contains_key(b) && nodes[a] == nodes[b]
            ==> a == b
}

/// No two messages share a frame identifier.
pub open spec fn frame_ids_unique(messages: Map<u64, MessageView>) -> bool {
    forall|a: u64, b: u64|
        #[trigger] messages.contains_key(a) && #[trigger] messages.contains_key(b)
            && messages[a].frame_id == messages[b].frame_id ==> a == b
}

/// The sender of `m`, if it names one, is a node of `nodes`.
pub open spec fn sender_known(nodes: Map<u64, Seq<char>>, m: MessageView) -> bool {
    match m.sender {
        Some(n) => nodes.contains_key(n@),
        None => true,
    }
}

impl DbcView {
    /// What every database keeps: identifiers below the next ones to be
    /// handed out, unique node names, unique frame identifiers, senders that
    /// are nodes of the database, and consistent messages.
    pub open spec fn well_formed(self) -> bool {
        &&& forall|k: u64| #[trigger] self.nodes.contains_key(k) ==> k < self.next_node_id
        &&& forall|k: u64| #[trigger] self.messages.contains_key(k) ==> k < self.next_msg_id
        &&& node_names_unique(self.nodes)
        &&& frame_ids_unique(self.messages)
        &&& forall|k: u64| #[trigger]
            self.messages.contains_key(k) ==> sender_known(self.nodes, self.messages[k])
        &&& forall|k: u64| #[trigger]
            self.messages.contains_key(k) ==> message_is_consistent(self.messages[k])
    }

    /// The outcome of adding a node called `name`: it gets the next node number.
    pub open spec fn after_add_node(self, name: Seq<char>) -> Result<DbcView, DbcError> {
        if node_name_used(self.nodes, name, None) {
            Err(DbcError::NodeAlreadyExists)
        } else {
            Ok(
                DbcView {
                    nodes: self.nodes.insert(self.next_node_id, name),
                    next_node_id: (self.next_node_id + 1) as u64,
                    ..self
                },
            )
        }
    }

    /// The outcome of applying `cmd` to the node numbered `id`.
    pub open spec fn after_modify_node(self, id: u64, cmd: NodeCommand) -> Result<DbcView, DbcError> {
        if !self.nodes.contains_key(id) {
            Err(DbcError::NodeNotFound)
        } else if node_name_used(self.nodes, node_after_command(cmd), Some(id)) {
            Err(DbcError::NodeAlreadyExists)
        } else {
            Ok(DbcView { nodes: self.nodes.insert(id, node_after_command(cmd)), ..self })
        }
    }

    /// The outcome of adding the message `m`: it gets the next message number.
    pub open spec fn after_add_message(self, m: MessageView) -> Result<DbcView, DbcError> {
        if !sender_known(self.nodes, m) {
            Err(DbcError::MessageSenderNotAvailable)
        } else if frame_id_used(self.messages, m.frame_id, None) {
            Err(DbcError::MessageAlreadyExists)
        } else {
            Ok(
                DbcView {
                    messages: self.messages.insert(self.next_msg_id, m),
                    next_msg_id: (self.next_msg_id + 1) as u64,
                    ..self
                },
            )
        }
    }

    /// `cmd` names a sender that is not a node.
    pub open spec fn sender_refused(self, cmd: MessageCommand) -> bool {
        match cmd {
            MessageCommand::SetSender(Some(n)) => !self.nodes.contains_key(n@),
            _ => false,
        }
    }

    /// `cmd` gives the message numbered `id` a frame identifier that another message has.
    pub open spec fn frame_id_refused(self, id: u64, cmd: MessageCommand) -> bool {
        match cmd {
            MessageCommand::SetFrameId(f) => frame_id_used(self.messages, f@, Some(id)),
            _ => false,
        }
    }

    /// The outcome of applying `cmd` to the message numbered `id`.
    pub open spec fn after_modify_message(self, id: u64, cmd: MessageCommand) -> Result<
        DbcView,
        DbcError,
    > {
        if !self.messages.contains_key(id) {
            Err(DbcError::MessageNotFound)
        } else if self.sender_refused(cmd) {
            Err(DbcError::MessageSenderNotAvailable)
        } else if self.frame_id_refused(id, cmd) {
            Err(DbcError::MessageAlreadyExists)
        } else {
            match message_after_command(self.messages[id], cmd) {
                Ok(m) => Ok(DbcView { messages: self.messages.insert(id, m), ..self }),
                Err(e) => Err(DbcError::Message(e)),
            }
        }
    }
}

/// An added node gets a number no node had, and is found under it with its name;
/// the nodes that were there stay as they were.
pub proof fn lemma_added_node_is_found(v: DbcView, name: Seq<char>)
    requires
        v.well_formed(),
    ensures
        !v.nodes.contains_key(v.next_node_id),
        v.after_add_node(name) matches Ok(w) ==> {
            &&& w.nodes.contains_key(v.next_node_id)
            &&& w.nodes[v.next_node_id] == name
            &&& forall|k: u64| #[trigger]
                v.nodes.contains_key(k) ==> w.nodes.contains_key(k) && w.nodes[k] == v.nodes[k]
            &&& w.messages == v.messages
        },
{
}

/// An added message gets a number no message had, and is found under it as it
/// was given; the messages that were there stay as they were.
pub proof fn lemma_added_message_is_found(v: DbcView, m: MessageView)
    requires
        v.well_formed(),
    ensures
        !v.messages.contains_key(v.next_msg_id),
        v.after_add_message(m) matches Ok(w) ==> {
            &&& w.messages.contains_key(v.next_msg_id)
            &&& w.messages[v.next_msg_id] == m
            &&& forall|k: u64| #[trigger]
                v.messages.contains_key(k) ==> w.messages.contains_key(k) && w.messages[k]
                    == v.messages[k]
            &&& w.nodes == v.nodes
        },
{
}

/// `w` holds every node and every message of `v` under the same number, and
/// hands out no number that `v` has already handed out.
pub open spec fn keeps_entries(v: DbcView, w: DbcView) -> bool {
    &&& forall|k: u64| #[trigger] v.nodes.contains_key(k) ==> w.nodes.contains_key(k)
    &&& forall|k: u64| #[trigger] v.messages.contains_key(k) ==> w.messages.contains_key(k)
    &&& v.next_node_id <= w.next_node_id
    &&& v.next_msg_id <= w.next_msg_id
}

/// A database never loses a node or a message: every change that succeeds
/// keeps each of them under its number, and never hands a number out twice.
pub proof fn lemma_changes_keep_entries(
    v: DbcView,
    name: Seq<char>,
    node_id: u64,
    node_cmd: NodeCommand,
    m: MessageView,
    msg_id: u64,
    msg_cmd: MessageCommand,
)
    requires
        v.well_formed(),
        v.next_node_id < u64::MAX,
        v.next_msg_id < u64::MAX,
    ensures
        v.after_add_node(name) matches Ok(w) ==> keeps_entries(v, w),
        v.after_modify_node(node_id, node_cmd) matches Ok(w) ==> keeps_entries(v, w),
        v.after_add_message(m) matches Ok(w) ==> keeps_entries(v, w),
        v.after_modify_message(msg_id, msg_cmd) matches Ok(w) ==> keeps_entries(v, w),
{
}

/// Applying a message command that the database accepts gives the message
/// what the message itself makes of the command.
pub proof fn lemma_modified_message_is_found(v: DbcView, id: u64, cmd: MessageCommand)
    requires
        v.well_formed(),
    ensures
        v.after_modify_message(id, cmd) matches Ok(w) ==> {
            &&& message_after_command(v.messages[id], cmd) matches Ok(m)
            &&& w.messages[id] == m
            &&& forall|k: u64| #[trigger]
                v.messages.contains_key(k) && k != id ==> w.messages[k] == v.messages[k]
        },
{
}

/// Adding a node is refused exactly when another node already has its name;
/// otherwise the node is stored under the next number and nothing else changes.
pub proof fn lemma_add_node_outcome(v: DbcView, name: Seq<char>)
    requires
        v.well_formed(),
    ensures
        (forall|k: u64| #[trigger] v.nodes.contains_key(k) ==> v.nodes[k] != name)
            ==> v.after_add_node(name) == Ok::<DbcView, DbcError>(
            DbcView {
                nodes: v.nodes.insert(v.next_node_id, name),
                next_node_id: (v.next_node_id + 1) as u64,
                ..v
            },
        ),
        (exists|k: u64| #[trigger] v.nodes.contains_key(k) && v.nodes[k] == name)
            ==> v.after_add_node(name) == Err::<DbcView, DbcError>(DbcError::NodeAlreadyExists),
{
}

/// Adding a message is refused only when its sender is not a node, or when
/// another message has its frame identifier. A node may send any number of
/// messages: a message whose sender is a node (or that has none) and whose
/// identifier is new is stored under the next number, and nothing else changes.
pub proof fn lemma_add_message_outcome(v: DbcView, m: MessageView)
    requires
        v.well_formed(),
    ensures
        (m.sender is None || v.nodes.contains_key(m.sender.unwrap()@)) && (forall|k: u64| #[trigger]
            v.messages.contains_key(k) ==> v.messages[k].frame_id != m.frame_id)
            ==> v.after_add_message(m) == Ok::<DbcView, DbcError>(
            DbcView {
                messages: v.messages.insert(v.next_msg_id, m),
                next_msg_id: (v.next_msg_id + 1) as u64,
                ..v
            },
        ),
        (m.sender is Some && !v.nodes.contains_key(m.sender.unwrap()@)) ==> v.after_add_message(m)
            == Err::<DbcView, DbcError>(DbcError::MessageSenderNotAvailable),
        (m.sender is None || v.nodes.contains_key(m.sender.unwrap()@)) && (exists|k: u64| #[trigger]
            v.messages.contains_key(k) && v.messages[k].frame_id == m.frame_id)
            ==> v.after_add_message(m) == Err::<DbcView, DbcError>(DbcError::MessageAlreadyExists),
{
}

/// Renaming a node is refused only when there is no such node, or when another
/// node has the new name. Otherwise it succeeds, whatever messages the node
/// sends: the node gets the new name and nothing else changes.
pub proof fn lemma_modify_node_outcome(v: DbcView, id: u64, new_name: String)
    requires
        v.well_formed(),
    ensures
        !v.nodes.contains_key(id) ==> v.after_modify_node(id, NodeCommand::Rename(new_name))
            == Err::<DbcView, DbcError>(DbcError::NodeNotFound),
        v.nodes.contains_key(id) && (exists|k: u64| #[trigger]
            v.nodes.contains_key(k) && k != id && v.nodes[k] == new_name@)
            ==> v.after_modify_node(id, NodeCommand::Rename(new_name)) == Err::<DbcView, DbcError>(
            DbcError::NodeAlreadyExists,
        ),
        v.nodes.contains_key(id) && (forall|k: u64| #[trigger]
            v.nodes.contains_key(k) && k != id ==> v.nodes[k] != new_name@)
            ==> v.after_modify_node(id, NodeCommand::Rename(new_name)) == Ok::<DbcView, DbcError>(
            DbcView { nodes: v.nodes.insert(id, new_name@), ..v },
        ),
{
}

/// Changes to a stored message: renaming always succeeds; setting the sender
/// succeeds exactly when the new sender is a node or there is none; a new frame
/// identifier is refused when another message has it, and otherwise when it
/// does not fit the format. Each accepted change touches that one field of
/// that one message.
pub proof fn lemma_modify_message_outcome(
    v: DbcView,
    id: u64,
    name: String,
    sender: Option<NodeId>,
    f: FrameId,
)
    requires
        v.well_formed(),
        v.messages.contains_key(id),
    ensures
        v.after_modify_message(id, MessageCommand::Rename(name)) == Ok::<DbcView, DbcError>(
            DbcView {
                messages: v.messages.insert(id, MessageView { name: name@, ..v.messages[id] }),
                ..v
            },
        ),
        (sender is None || v.nodes.contains_key(sender.unwrap()@)) ==> v.after_modify_message(
            id,
            MessageCommand::SetSender(sender),
        ) == Ok::<DbcView, DbcError>(
            DbcView {
                messages: v.messages.insert(id, MessageView { sender: sender, ..v.messages[id] }),
                ..v
            },
        ),
        (sender is Some && !v.nodes.contains_key(sender.unwrap()@)) ==> v.after_modify_message(
            id,
            MessageCommand::SetSender(sender),
        ) == Err::<DbcView, DbcError>(DbcError::MessageSenderNotAvailable),
        (exists|k: u64| #[trigger] v.messages.contains_key(k) && k != id && v.messages[k].frame_id
            == f@) ==> v.after_modify_message(id, MessageCommand::SetFrameId(f)) == Err::<
            DbcView,
            DbcError,
        >(DbcError::MessageAlreadyExists),
        (forall|k: u64| #[trigger] v.messages.contains_key(k) && k != id ==> v.messages[k].frame_id
            != f@) && (f@ <= 0x7FF || v.messages[id].frame_format is ExtendedCan
            || v.messages[id].frame_format is ExtendedCanFd || v.messages[id].frame_format is J1939)
            ==> v.after_modify_message(id, MessageCommand::SetFrameId(f)) == Ok::<DbcView, DbcError>(
            DbcView {
                messages: v.messages.insert(id, MessageView { frame_id: f@, ..v.messages[id] }),
                ..v
            },
        ),
        (forall|k: u64| #[trigger] v.messages.contains_key(k) && k != id ==> v.messages[k].frame_id
            != f@) && !(f@ <= 0x7FF || v.messages[id].frame_format is ExtendedCan
            || v.messages[id].frame_format is ExtendedCanFd || v.messages[id].frame_format is J1939)
            ==> v.after_modify_message(id, MessageCommand::SetFrameId(f)) == Err::<DbcView, DbcError>(
            DbcError::Message(MessageError::FrameTooLargeForFormat),
        ),
{
}

/// A CAN database: the nodes of a bus and the messages they send.
pub struct Dbc {
    nodes: HashMap<u64, Node>,
    next_node_id: u64,
    messages: HashMap<u64, Message>,
    next_msg_id: u64,
}

impl View for Dbc {
    type V = DbcView;

    closed spec fn view(&self) -> DbcView {
        DbcView {
            nodes: self.nodes@.map_values(|n: Node| n@),
            next_node_id: self.next_node_id,
            messages: self.messages@.map_values(|m: Message| m@),
            next_msg_id: self.next_msg_id,
        }
    }
}

impl Dbc {
    pub fn new() -> (res: Self)
        ensures
            res@.well_formed(),
            res@.nodes == Map::<u64, Seq<char>>::empty(),
            res@.messages == Map::<u64, MessageView>::empty(),
            res@.next_node_id == 0,
            res@.next_msg_id == 0,
    {
        let res = Self {
            next_msg_id: 0,
            next_node_id: 0,
            nodes: HashMap::new(),
            messages: HashMap::new(),
        };
        assert(res@.nodes =~= Map::<u64, Seq<char>>::empty());
        assert(res@.messages =~= Map::<u64, MessageView>::empty());
        res
    }

    /// Whether a node other than the one numbered `except` is called `name`.
    fn node_name_in_use(&self, name: &String, except: Option<u64>) -> (res: bool)
        requires
            self@.well_formed(),
        ensures
            res == node_name_used(self@.nodes, name@, except),
    {
        let mut k: u64 = 0;
        while k < self.next_node_id
            invariant
                self@.well_formed(),
                k <= self@.next_node_id,
                forall|j: u64|
                    j < k && #[trigger] self@.nodes.contains_key(j) && except != Some(j)
                        ==> self@.nodes[j] != name@,
            decreases self@.next_node_id - k,
        {
            match self.nodes.get(&k) {
                Some(n) => {
                    let other = match except {
                        Some(e) => e != k,
                        None => true,
                    };
                    if other && n.has_name(name) {
                        assert(self@.nodes.contains_key(k));
                        return true;
                    }
                },
                None => {},
            }
            k = k + 1;
        }
        false
    }

    /// Whether a message other than the one numbered `except` has the frame identifier `frame_id`.
    fn frame_id_in_use(&self, frame_id: u32, except: Option<u64>) -> (res: bool)
        requires
            self@.well_formed(),
        ensures
            res == frame_id_used(self@.messages, frame_id, except),
    {
        let mut k: u64 = 0;
        while k < self.next_msg_id
            invariant
                self@.well_formed(),
                k <= self@.next_msg_id,
                forall|j: u64|
                    j < k && #[trigger] self@.messages.contains_key(j) && except != Some(j)
                        ==> self@.messages[j].frame_id != frame_id,
            decreases self@.next_msg_id - k,
        {
            match self.messages.get(&k) {
                Some(m) => {
                    let other = match except {
                        Some(e) => e != k,
                        None => true,
                    };
                    if other && m.frame_id().get_id() == frame_id {
                        assert(self@.messages.contains_key(k));
                        return true;
                    }
                },
                None => {},
            }
            k = k + 1;
        }
        false
    }

    pub fn add_node(&mut self, node: Node) -> (res: Result<NodeId, DbcError>)
        requires
            old(self)@.well_formed(),
            old(self)@.next_node_id < u64::MAX,
        ensures
            final(self)@.well_formed(),
            match old(self)@.after_add_node(node@) {
                Ok(v) => res matches Ok(id) && id@ == old(self)@.next_node_id && final(self)@ == v,
                Err(e) => res == Err::<NodeId, DbcError>(e) && final(self)@ == old(self)@,
            },
    {
        if self.node_name_in_use(node.name_string(), None) {
            return Err(DbcError::NodeAlreadyExists);
        }
        let n_id = NodeId::new(self.next_node_id);
        self.next_node_id = self.next_node_id + 1;
        self.nodes.insert(n_id.value(), node);
        proof {
            assert(self@.nodes =~= old(self)@.nodes.insert(old(self)@.next_node_id, node@));
        }
        Ok(n_id)
    }

    pub fn get_node(&self, id: NodeId) -> (res: Option<&Node>)
        ensures
            match res {
                Some(n) => self@.nodes.contains_key(id@) && n@ == self@.nodes[id@],
                None => !self@.nodes.contains_key(id@),
            },
    {
        self.nodes.get(&id.value())
    }

    pub fn modify_node(&mut self, id: NodeId, cmd: NodeCommand) -> (res: Result<(), DbcError>)
        requires
            old(self)@.well_formed(),
        ensures
            final(self)@.well_formed(),
            match old(self)@.after_modify_node(id@, cmd) {
                Ok(v) => res is Ok && final(self)@ == v,
                Err(e) => res == Err::<(), DbcError>(e) && final(self)@ == old(self)@,
            },
    {
        let key = id.value();
        if !self.nodes.contains_key(&key) {
            return Err(DbcError::NodeNotFound);
        }
        match &cmd {
            NodeCommand::Rename(new_name) => {
                if self.node_name_in_use(new_name, Some(key)) {
                    return Err(DbcError::NodeAlreadyExists);
                }
            },
        }
        let mut node = self.nodes.remove(&key).unwrap();
        let applied = node.apply_command(cmd);
        self.nodes.insert(key, node);
        proof {
            assert(self@.nodes =~= old(self)@.nodes.insert(key, node_after_command(cmd)));
        }
        match applied {
            Ok(()) => Ok(()),
            Err(e) => Err(DbcError::from(e)),
        }
    }

    pub fn add_message(&mut self, msg: Message) -> (res: Result<MessageId, DbcError>)
        requires
            old(self)@.well_formed(),
            old(self)@.next_msg_id < u64::MAX,
        ensures
            final(self)@.well_formed(),
            match old(self)@.after_add_message(msg@) {
                Ok(v) => res matches Ok(id) && id@ == old(self)@.next_msg_id && final(self)@ == v,
                Err(e) => res == Err::<MessageId, DbcError>(e) && final(self)@ == old(self)@,
            },
    {
        proof {
            use_type_invariant(&msg);
        }
        if let Some(n_id) = msg.sender() {
            if self.get_node(n_id).is_none() {
                return Err(DbcError::MessageSenderNotAvailable);
            }
        }
        if self.frame_id_in_use(msg.frame_id().get_id(), None) {
            return Err(DbcError::MessageAlreadyExists);
        }
        let m_id = MessageId::new(self.next_msg_id);
        self.messages.insert(m_id.value(), msg);
        self.next_msg_id = self.next_msg_id + 1;
        proof {
            assert(self@.messages =~= old(self)@.messages.insert(old(self)@.next_msg_id, msg@));
        }
        Ok(m_id)
    }

    pub fn get_message(&self, m_id: MessageId) -> (res: Option<&Message>)
        ensures
            match res {
                Some(m) => self@.messages.contains_key(m_id@) && m@ == self@.messages[m_id@],
                None => !self@.messages.contains_key(m_id@),
            },
    {
        self.messages.get(&m_id.value())
    }

    pub fn modify_message(&mut self, id: MessageId, cmd: MessageCommand) -> (res: Result<
        (),
        DbcError,
    >)
        requires
            old(self)@.well_formed(),
        ensures
            final(self)@.well_formed(),
            match old(self)@.after_modify_message(id@, cmd) {
                Ok(v) => res is Ok && final(self)@ == v,
                Err(e) => res == Err::<(), DbcError>(e) && final(self)@ == old(self)@,
            },
    {
        let key = id.value();
        if !self.messages.contains_key(&key) {
            return Err(DbcError::MessageNotFound);
        }
        if let MessageCommand::SetSender(Some(n_id)) = &cmd {
            if !self.nodes.contains_key(&n_id.value()) {
                return Err(DbcError::MessageSenderNotAvailable);
            }
        }
        if let MessageCommand::SetFrameId(f_id) = &cmd {
            if self.frame_id_in_use(f_id.get_id(), Some(key)) {
                return Err(DbcError::MessageAlreadyExists);
            }
        }
        let mut msg = self.messages.remove(&key).unwrap();
        let applied = msg.apply_command(cmd);
        self.messages.insert(key, msg);
        proof {
            assert(self@.messages =~= old(self)@.messages.insert(key, msg@));
        }
        match applied {
            Ok(()) => Ok(()),
            Err(e) => {
                proof {
                    assert(self@.messages =~= old(self)@.messages);
                }
                Err(DbcError::from(e))
            },
        }
    }
}

/// Why a database refuses a change.
#[derive(Eq, PartialEq, Debug)]
pub enum DbcError {
    MessageNotFound,
    MessageSenderNotAvailable,
    MessageAlreadyExists,
    Message(MessageError),
    NodeNotFound,
    NodeAlreadyExists,
    Node(NodeError),
}

impl From<MessageError> for DbcError {
    fn from(input: MessageError) -> (res: DbcError)
        ensures
            res == DbcError::Message(input),
    {
        DbcError::Message(input)
    }
}

impl vstd::std_specs::convert::FromSpecImpl<MessageError> for DbcError {
    open spec fn obeys_from_spec() -> bool {
        true
    }

    open spec fn from_spec(v: MessageError) -> DbcError {
        DbcError::Message(v)
    }
}

impl From<NodeError> for DbcError {
    fn from(input: NodeError) -> (res: DbcError)
        ensures
            res == DbcError::Node(input),
    {
        DbcError::Node(input)
    }
}

impl vstd::std_specs::convert::FromSpecImpl<NodeError> for DbcError {
    open spec fn obeys_from_spec() -> bool {
        true
    }

    open spec fn from_spec(v: NodeError) -> DbcError {
        DbcError::Node(v)
    }
}

} // verus!
