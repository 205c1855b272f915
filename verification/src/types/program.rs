use vstd::prelude::*;

use crate::types::builtin_name::BuiltinName;

verus! {

/// The view of an optional string: its characters, where there is one.
pub open spec fn opt_str_view(o: Option<String>) -> Option<Seq<char>> {
    match o {
        Some(s) => Some(s@),
        None => None,
    }
}

/// What resolution reads of an identifier, with strings taken by their characters.
pub struct SpecIdentifier {
    pub pc: Option<usize>,
    pub type_: Option<Seq<char>>,
    pub full_name: Option<Seq<char>>,
    pub destination: Option<Seq<char>>,
}

/// An entry of a program's identifier table: its pc, its type (such as
/// "function" or "alias"), its full name, and the target of an alias.
#[derive(Debug)]
pub struct Identifier {
    pub pc: Option<usize>,
    pub type_: Option<String>,
    pub full_name: Option<String>,
    pub destination: Option<String>,
}

impl View for Identifier {
    type V = SpecIdentifier;

    open spec fn view(&self) -> SpecIdentifier {
        SpecIdentifier {
            pc: self.pc,
            type_: opt_str_view(self.type_),
            full_name: opt_str_view(self.full_name),
            destination: opt_str_view(self.destination),
        }
    }
}

fn clone_opt_string(o: &Option<String>) -> (r: Option<String>)
    ensures
        opt_str_view(r) == opt_str_view(*o),
{
    match o {
        Some(s) => Some(s.clone()),
        None => None,
    }
}

impl Identifier {
    /// A copy of the identifier with the same view.
    pub fn duplicate(&self) -> (r: Identifier)
        ensures
            r@ == self@,
    {
        Identifier {
            pc: self.pc,
            type_: clone_opt_string(&self.type_),
            full_name: clone_opt_string(&self.full_name),
            destination: clone_opt_string(&self.destination),
        }
    }
}

/// The view of an identifier table: names by their characters, entries by their views.
pub open spec fn table_view(t: Seq<(String, Identifier)>) -> Seq<(Seq<char>, SpecIdentifier)> {
    t.map_values(|e: (String, Identifier)| (e.0@, e.1@))
}

/// Looks a name up in an identifier table. The table behaves as a map built
/// by inserting its entries in order: of two entries with one name, the later
/// one is found.
pub open spec fn lookup(t: Seq<(Seq<char>, SpecIdentifier)>, name: Seq<char>) -> Option<SpecIdentifier>
    decreases t.len(),
{
    if t.len() == 0 {
        None
    } else if t.last().0 == name {
        Some(t.last().1)
    } else {
        lookup(t.drop_last(), name)
    }
}

/// A compiled Cairo program, as far as running one of its functions reads it:
/// the builtins it uses and its identifier table.
pub struct Program {
    pub builtins: Vec<BuiltinName>,
    pub identifiers: Vec<(String, Identifier)>,
}

impl Program {
    /// The program's identifier table.
    pub open spec fn identifier_table(&self) -> Seq<(Seq<char>, SpecIdentifier)> {
        table_view(self.identifiers@)
    }

    /// Builds a program from its builtins and its identifier entries, in order.
    pub fn new(builtins: Vec<BuiltinName>, identifiers: Vec<(String, Identifier)>) -> (p: Program)
        ensures
            p.builtins@ == builtins@,
            p.identifier_table() == table_view(identifiers@),
    {
        Program { builtins, identifiers }
    }

    /// A copy of the program with the same builtins and identifier table.
    pub fn duplicate(&self) -> (p: Program)
        ensures
            p.builtins@ == self.builtins@,
            p.identifier_table() == self.identifier_table(),
    {
        let mut builtins: Vec<BuiltinName> = Vec::new();
        let n = self.builtins.len();
        for i in 0..n
            invariant
                n == self.builtins.len(),
                builtins@ == self.builtins@.take(i as int),
        {
            builtins.push(self.builtins[i]);
            assert(self.builtins@.take(i + 1) == self.builtins@.take(i as int).push(self.builtins@[i as int]));
        }
        assert(self.builtins@.take(n as int) == self.builtins@);
        let mut identifiers: Vec<(String, Identifier)> = Vec::new();
        let m = self.identifiers.len();
        for i in 0..m
            invariant
                m == self.identifiers.len(),
                table_view(identifiers@) == table_view(self.identifiers@.take(i as int)),
        {
            let entry = &self.identifiers[i];
            identifiers.push((entry.0.clone(), entry.1.duplicate()));
            assert(table_view(self.identifiers@.take(i + 1)) == table_view(self.identifiers@.take(i as int)).push(
                (self.identifiers@[i as int].0@, self.identifiers@[i as int].1@)));
        }
        assert(self.identifiers@.take(m as int) == self.identifiers@);
        Program { builtins, identifiers }
    }

    /// Finds the identifier of the given full name.
    pub fn get_identifier(&self, name: &str) -> (r: Option<&Identifier>)
        ensures
            match r {
                Some(id) => lookup(self.identifier_table(), name@) == Some(id@),
                None => lookup(self.identifier_table(), name@) is None,
            },
    {
        let key = String::from_str(name);
        let mut i = self.identifiers.len();
        assert(self.identifiers@.take(i as int) == self.identifiers@);
        while i > 0
            invariant
                i <= self.identifiers.len(),
                key@ == name@,
                lookup(self.identifier_table(), name@) == lookup(table_view(self.identifiers@.take(i as int)), name@),
            decreases i,
        {
            let ghost prefix = table_view(self.identifiers@.take(i as int));
            assert(prefix.drop_last() == table_view(self.identifiers@.take(i - 1)));
            if self.identifiers[i - 1].0 == key {
                return Some(&self.identifiers[i - 1].1);
            }
            i = i - 1;
        }
        None
    }
}

} // verus!
