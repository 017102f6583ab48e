//! Per-account layout options, and the table that holds them by account
//! name.

use vstd::prelude::*;

verus! {

/// How a type that is read in place lays out its bytes.
#[derive(Clone, Copy, Debug, PartialEq, Eq, Structural)]
pub enum ZeroCopy {
    /// The layout is the caller's to vouch for.
    Unsafe,
    /// The layout is checked.
    Safe,
}

/// An explicit memory representation.
#[derive(Clone, Copy, Debug, PartialEq, Eq, Structural)]
pub enum Representation {
    C,
    Transparent,
    Packed,
}

/// The layout options of one account type. Neither is set by default.
#[derive(Clone, Copy, Debug, PartialEq, Eq, Structural)]
pub struct StructOpts {
    pub representation: Option<Representation>,
    pub zero_copy: Option<ZeroCopy>,
}

impl StructOpts {
    /// The options of an account that no entry was made for.
    pub open spec fn unset() -> StructOpts {
        StructOpts { representation: None, zero_copy: None }
    }
}

impl Default for StructOpts {
    fn default() -> (r: StructOpts)
        ensures
            r == StructOpts::unset(),
    {
        StructOpts { representation: None, zero_copy: None }
    }
}

/// One entry of the options table.
pub struct NamedOpts {
    pub name: String,
    pub opts: StructOpts,
}

/// The map that a list of entries stands for: a later entry under a name
/// replaces an earlier one.
pub open spec fn opts_map(entries: Seq<NamedOpts>) -> Map<Seq<char>, StructOpts>
    decreases entries.len(),
{
    if entries.len() == 0 {
        Map::empty()
    } else {
        opts_map(entries.drop_last()).insert(entries.last().name@, entries.last().opts)
    }
}

/// The options that `map` holds for `name`, unset where it holds none.
pub open spec fn opts_for(map: Map<Seq<char>, StructOpts>, name: Seq<char>) -> StructOpts {
    if map.contains_key(name) {
        map[name]
    } else {
        StructOpts::unset()
    }
}

/// Layout options by account name.
pub struct StructOptsTable {
    entries: Vec<NamedOpts>,
}

impl View for StructOptsTable {
    type V = Map<Seq<char>, StructOpts>;

    closed spec fn view(&self) -> Map<Seq<char>, StructOpts> {
        opts_map(self.entries@)
    }
}

impl StructOptsTable {
    /// A table without entries.
    pub fn new() -> (r: StructOptsTable)
        ensures
            r@ == Map::<Seq<char>, StructOpts>::empty(),
    {
        StructOptsTable { entries: Vec::new() }
    }

    /// Sets the options of `name`, in place of any it had.
    pub fn insert(&mut self, name: String, opts: StructOpts)
        ensures
            final(self)@ == old(self)@.insert(name@, opts),
    {
        let ghost before = self.entries@;
        self.entries.push(NamedOpts { name, opts });
        assert(self.entries@.drop_last() =~= before);
    }

    /// The options of `name`, if any were set.
    pub fn get(&self, name: &String) -> (r: Option<StructOpts>)
        ensures
            r == if self@.contains_key(name@) {
                Some(self@[name@])
            } else {
                None
            },
    {
        let mut i: usize = self.entries.len();
        assert(self.entries@.take(i as int) =~= self.entries@);
        while i > 0
            invariant
                i <= self.entries.len(),
                opts_map(self.entries@).contains_key(name@) == opts_map(
                    self.entries@.take(i as int),
                ).contains_key(name@),
                opts_map(self.entries@).contains_key(name@) ==> opts_map(self.entries@)[name@]
                    == opts_map(self.entries@.take(i as int))[name@],
            decreases i,
        {
            i = i - 1;
            proof {
                assert(self.entries@.take(i + 1).drop_last() =~= self.entries@.take(i as int));
            }
            if self.entries[i].name.eq(name) {
                return Some(self.entries[i].opts);
            }
        }
        None
    }

    /// The options of `name`, unset where none were set.
    pub fn get_or_default(&self, name: &String) -> (r: StructOpts)
        ensures
            r == opts_for(self@, name@),
    {
        match self.get(name) {
            Some(opts) => opts,
            None => StructOpts::default(),
        }
    }
}

} // verus!
