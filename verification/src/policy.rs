//! The access policy of a sandbox: which paths may be read or written, and
//! which ports may be bound or connected to.

use vstd::prelude::*;

verus! {

/// What an access policy says: five sequences, each in the order in which its
/// entries were added.
pub struct Policy {
    /// Paths that may be read.
    pub read_only: Seq<Seq<char>>,
    /// Paths that may be read and written.
    pub read_write: Seq<Seq<char>>,
    /// Paths that may be written.
    pub write_only: Seq<Seq<char>>,
    /// Ports that may be bound.
    pub bind_ports: Seq<u16>,
    /// Ports that may be connected to.
    pub connect_ports: Seq<u16>,
}

impl Policy {
    /// The policy that allows nothing.
    pub open spec fn empty() -> Policy {
        Policy {
            read_only: Seq::empty(),
            read_write: Seq::empty(),
            write_only: Seq::empty(),
            bind_ports: Seq::empty(),
            connect_ports: Seq::empty(),
        }
    }
}

/// The text of each path of a list, in order.
pub open spec fn texts(paths: Seq<String>) -> Seq<Seq<char>> {
    paths.map_values(|path: String| path@)
}

/// The rules of a sandbox.
///
/// A value is built by chaining the `add_` methods on `Rules::new()`. Nothing
/// is checked while it is built: a path that does not exist, or one named in
/// two lists, is kept as given. Once built the value is only read, so one
/// value can be shared by many spawns.
#[derive(Debug)]
pub struct Rules {
    read_only: Vec<String>,
    read_write: Vec<String>,
    write_only: Vec<String>,
    bind_ports: Vec<u16>,
    connect_ports: Vec<u16>,
}

impl View for Rules {
    type V = Policy;

    closed spec fn view(&self) -> Policy {
        Policy {
            read_only: texts(self.read_only@),
            read_write: texts(self.read_write@),
            write_only: texts(self.write_only@),
            bind_ports: self.bind_ports@,
            connect_ports: self.connect_ports@,
        }
    }
}

impl Rules {
    /// Rules that allow nothing.
    pub fn new() -> (rules: Self)
        ensures
            rules@ == Policy::empty(),
    {
        let rules = Rules {
            read_only: Vec::new(),
            read_write: Vec::new(),
            write_only: Vec::new(),
            bind_ports: Vec::new(),
            connect_ports: Vec::new(),
        };
        assert(texts(rules.read_only@) =~= Seq::empty());
        assert(texts(rules.read_write@) =~= Seq::empty());
        assert(texts(rules.write_only@) =~= Seq::empty());
        rules
    }

    /// The paths that may be read, in the order in which they were added.
    pub fn read_only(&self) -> (paths: &Vec<String>)
        ensures
            texts(paths@) == self@.read_only,
    {
        &self.read_only
    }

    /// The paths that may be read and written, in the order in which they
    /// were added.
    pub fn read_write(&self) -> (paths: &Vec<String>)
        ensures
            texts(paths@) == self@.read_write,
    {
        &self.read_write
    }

    /// The paths that may be written, in the order in which they were added.
    pub fn write_only(&self) -> (paths: &Vec<String>)
        ensures
            texts(paths@) == self@.write_only,
    {
        &self.write_only
    }

    /// The ports that may be bound, in the order in which they were added.
    pub fn bind_ports(&self) -> (ports: &Vec<u16>)
        ensures
            ports@ == self@.bind_ports,
    {
        &self.bind_ports
    }

    /// The ports that may be connected to, in the order in which they were
    /// added.
    pub fn connect_ports(&self) -> (ports: &Vec<u16>)
        ensures
            ports@ == self@.connect_ports,
    {
        &self.connect_ports
    }

    /// Adds a path that may be read.
    pub fn add_read_only(self, p: &str) -> (rules: Self)
        ensures
            rules@ == (Policy { read_only: self@.read_only.push(p@), ..self@ }),
    {
        let mut rules = self;
        rules.read_only.push(p.to_owned());
        assert(texts(rules.read_only@) =~= texts(self.read_only@).push(p@));
        rules
    }

    /// Adds a path that may be read and written.
    pub fn add_read_write(self, p: &str) -> (rules: Self)
        ensures
            rules@ == (Policy { read_write: self@.read_write.push(p@), ..self@ }),
    {
        let mut rules = self;
        rules.read_write.push(p.to_owned());
        assert(texts(rules.read_write@) =~= texts(self.read_write@).push(p@));
        rules
    }

    /// Adds a path that may be written.
    pub fn add_write_only(self, p: &str) -> (rules: Self)
        ensures
            rules@ == (Policy { write_only: self@.write_only.push(p@), ..self@ }),
    {
        let mut rules = self;
        rules.write_only.push(p.to_owned());
        assert(texts(rules.write_only@) =~= texts(self.write_only@).push(p@));
        rules
    }

    /// Adds a port that may be connected to.
    pub fn add_connect_port(self, p: u16) -> (rules: Self)
        ensures
            rules@ == (Policy { connect_ports: self@.connect_ports.push(p), ..self@ }),
    {
        let mut rules = self;
        rules.connect_ports.push(p);
        rules
    }

    /// Adds a port that may be bound.
    pub fn add_bind_port(self, p: u16) -> (rules: Self)
        ensures
            rules@ == (Policy { bind_ports: self@.bind_ports.push(p), ..self@ }),
    {
        let mut rules = self;
        rules.bind_ports.push(p);
        rules
    }
}

impl Default for Rules {
    /// Rules that allow nothing.
    fn default() -> (rules: Self)
        ensures
            rules@ == Policy::empty(),
    {
        Rules::new()
    }
}

impl Clone for Rules {
    /// A copy with the same five lists.
    fn clone(&self) -> (rules: Self)
        ensures
            rules@ == self@,
    {
        let rules = Rules {
            read_only: self.read_only.clone(),
            read_write: self.read_write.clone(),
            write_only: self.write_only.clone(),
            bind_ports: self.bind_ports.clone(),
            connect_ports: self.connect_ports.clone(),
        };
        rules
    }
}

} // verus!
