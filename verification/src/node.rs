use vstd::prelude::*;

verus! {

/// The identifier under which a database holds a node.
#[derive(Copy, Clone, Hash, PartialEq, Eq, Structural, Debug)]
pub struct NodeId {
    id: u64,
}

impl View for NodeId {
    type V = u64;

    closed spec fn view(&self) -> u64 {
        self.id
    }
}

impl NodeId {
    pub fn new(input: u64) -> (res: Self)
        ensures
            res@ == input,
    {
        Self { id: input }
    }

    /// The number behind the identifier.
    pub(crate) fn value(&self) -> (res: u64)
        ensures
            res == self@,
    {
        self.id
    }
}

/// A node (an ECU) of the bus, known by its name.
pub struct Node {
    name: String,
}

impl View for Node {
    type V = Seq<char>;

    /// A node is its name.
    closed spec fn view(&self) -> Seq<char> {
        self.name@
    }
}

/// The name a node has after `cmd` is applied to it.
pub open spec fn node_after_command(cmd: NodeCommand) -> Seq<char> {
    match cmd {
        NodeCommand::Rename(new_name) => new_name@,
    }
}

/// Renaming a node gives it exactly the new name.
pub proof fn lemma_rename_gives_new_name(new_name: String)
    ensures
        node_after_command(NodeCommand::Rename(new_name)) == new_name@,
{
}

impl Node {
    pub fn new(name: &str) -> (res: Self)
        ensures
            res@ == name@,
    {
        Self { name: name.to_owned() }
    }

    pub fn name(&self) -> (res: &str)
        ensures
            res@ == self@,
    {
        self.name.as_str()
    }

    /// The node's name as a `String`.
    pub(crate) fn name_string(&self) -> (res: &String)
        ensures
            res@ == self@,
    {
        &self.name
    }

    /// Whether the node is called `name`.
    pub(crate) fn has_name(&self, name: &String) -> (res: bool)
        ensures
            res == (self@ == name@),
    {
        self.name == *name
    }

    pub fn apply_command(&mut self, cmd: NodeCommand) -> (res: Result<(), NodeError>)
        ensures
            res is Ok,
            final(self)@ == node_after_command(cmd),
    {
        match cmd {
            NodeCommand::Rename(new_name) => {
                self.name = new_name;
            },
        }
        Ok(())
    }
}

/// What can go wrong when a node is changed. No command produces it yet:
/// `apply_command` always succeeds.
#[derive(PartialEq, Eq, Debug)]
pub enum NodeError {
    Unsupported,
}

/// A change to a node.
#[derive(Debug, Clone, PartialEq)]
pub enum NodeCommand {
    Rename(String),
}

} // verus!
