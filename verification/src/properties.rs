//! Message properties: a table of names and values, and the text that carries it on the wire.

use vstd::prelude::*;
use vstd::string::*;

use crate::text::same_text;

verus! {

/// Stands between the name and the value of a property.
pub const NAME_VALUE_SEPARATOR: char = '\u{1}';

/// Stands behind a property.
pub const PROPERTY_SEPARATOR: char = '\u{2}';

/// What a list of entries says of each name, the later entry prevailing.
pub open spec fn entries_map(entries: Seq<(String, String)>) -> Map<Seq<char>, Seq<char>>
    decreases entries.len(),
{
    if entries.len() == 0 {
        Map::empty()
    } else {
        entries_map(entries.drop_last()).insert(entries.last().0@, entries.last().1@)
    }
}

/// No name occurs twice in a list of entries.
pub open spec fn distinct_names(entries: Seq<(String, String)>) -> bool {
    forall|i: int, j: int|
        0 <= i < j < entries.len() ==> #[trigger] entries[i].0@ != #[trigger] entries[j].0@
}

/// Values by name. Each name has one entry.
#[derive(Debug)]
pub struct Properties {
    entries: Vec<(String, String)>,
}

impl View for Properties {
    type V = Map<Seq<char>, Seq<char>>;

    closed spec fn view(&self) -> Map<Seq<char>, Seq<char>> {
        entries_map(self.entries@)
    }
}

impl Properties {
    /// Each name has one entry.
    #[verifier::type_invariant]
    spec fn distinct(&self) -> bool {
        distinct_names(self.entries@)
    }

    /// The empty table.
    pub fn new() -> (r: Properties)
        ensures
            r@ == Map::<Seq<char>, Seq<char>>::empty(),
    {
        Properties { entries: Vec::new() }
    }

    /// The index behind the last entry of `name`, or zero where it has none.
    fn position(&self, name: &str) -> (r: usize)
        ensures
            r <= self.entries@.len(),
            r > 0 ==> self.entries@[r - 1].0@ == name@,
            forall|j: int| r <= j < self.entries@.len() ==> #[trigger] self.entries@[j].0@ != name@,
            r > 0 ==> self@.contains_key(name@) && self@[name@] == self.entries@[r - 1].1@,
            r == 0 ==> !self@.contains_key(name@),
    {
        let mut i: usize = self.entries.len();
        assert(self.entries@.take(i as int) =~= self.entries@);
        while i > 0
            invariant
                i <= self.entries@.len(),
                forall|j: int|
                    i <= j < self.entries@.len() ==> #[trigger] self.entries@[j].0@ != name@,
                self@.contains_key(name@) == entries_map(
                    self.entries@.take(i as int),
                ).contains_key(name@),
                self@.contains_key(name@) ==> self@[name@] == entries_map(
                    self.entries@.take(i as int),
                )[name@],
            decreases i,
        {
            let ghost head = self.entries@.take(i as int);
            assert(head.drop_last() =~= self.entries@.take(i - 1));
            assert(head.last() == self.entries@[i - 1]);
            if same_text(self.entries[i - 1].0.as_str(), name) {
                return i;
            }
            i -= 1;
        }
        0
    }

    /// The value of `name`.
    pub fn get(&self, name: &str) -> (r: Option<&String>)
        ensures
            match r {
                Some(value) => self@.contains_key(name@) && value@ == self@[name@],
                None => !self@.contains_key(name@),
            },
    {
        let at: usize = self.position(name);
        if at > 0 {
            Some(&self.entries[at - 1].1)
        } else {
            None
        }
    }

    /// Sets the value of `name`, in the place of an earlier one.
    pub fn insert(&mut self, name: String, value: String)
        ensures
            final(self)@ == old(self)@.insert(name@, value@),
    {
        proof {
            use_type_invariant(&*self);
        }
        let at: usize = self.position(name.as_str());
        let ghost before = self.entries@;
        let mut entries: Vec<(String, String)> = Vec::new();
        std::mem::swap(&mut entries, &mut self.entries);
        if at > 0 {
            proof {
                lemma_update_entry(before, at - 1, (name, value));
            }
            entries.set(at - 1, (name, value));
            assert forall|i: int, j: int| 0 <= i < j < entries@.len() implies #[trigger] entries@[i].0@
                != #[trigger] entries@[j].0@ by {
                assert(before[i].0@ != before[j].0@);
            }
        } else {
            entries.push((name, value));
            assert(entries@.drop_last() =~= before);
        }
        self.entries = entries;
    }

    /// The table that a list of entries describes, a later entry in the place of an earlier one
    /// of the same name.
    pub fn from_entries(entries: Vec<(String, String)>) -> (r: Properties)
        ensures
            r@ == entries_map(entries@),
    {
        let mut table = Properties::new();
        let mut i: usize = 0;
        while i < entries.len()
            invariant
                i <= entries@.len(),
                table@ == entries_map(entries@.take(i as int)),
            decreases entries@.len() - i,
        {
            assert(entries@.take(i + 1).drop_last() =~= entries@.take(i as int));
            table.insert(entries[i].0.clone(), entries[i].1.clone());
            i += 1;
        }
        assert(entries@.take(i as int) =~= entries@);
        table
    }

    /// The entries of the table.
    pub fn entries(&self) -> (r: &Vec<(String, String)>)
        ensures
            entries_map(r@) == self@,
            distinct_names(r@),
    {
        proof {
            use_type_invariant(self);
        }
        &self.entries
    }
}

impl Clone for Properties {
    fn clone(&self) -> (r: Properties)
        ensures
            r@ == self@,
    {
        proof {
            use_type_invariant(self);
        }
        let mut entries: Vec<(String, String)> = Vec::new();
        let mut i: usize = 0;
        while i < self.entries.len()
            invariant
                i <= self.entries@.len(),
                entries@ =~= self.entries@.take(i as int),
            decreases self.entries@.len() - i,
        {
            entries.push((self.entries[i].0.clone(), self.entries[i].1.clone()));
            i += 1;
        }
        assert(entries@ =~= self.entries@);
        Properties { entries }
    }
}

/// Replacing the last entry of a name replaces the value of that name.
proof fn lemma_update_entry(entries: Seq<(String, String)>, at: int, entry: (String, String))
    requires
        0 <= at < entries.len(),
        entries[at].0@ == entry.0@,
        forall|j: int| at < j < entries.len() ==> #[trigger] entries[j].0@ != entry.0@,
    ensures
        entries_map(entries.update(at, entry)) == entries_map(entries).insert(entry.0@, entry.1@),
    decreases entries.len(),
{
    let head = entries.drop_last();
    let updated = entries.update(at, entry);
    if at == entries.len() - 1 {
        assert(updated.drop_last() =~= head);
        assert(entries_map(updated) =~= entries_map(entries).insert(entry.0@, entry.1@));
    } else {
        assert(updated.drop_last() =~= head.update(at, entry));
        assert forall|j: int| at < j < head.len() implies #[trigger] head[j].0@ != entry.0@ by {
            assert(entries[j].0@ != entry.0@);
        }
        lemma_update_entry(head, at, entry);
        assert(entries[entries.len() - 1].0@ != entry.0@);
        assert(entries_map(updated) =~= entries_map(entries).insert(entry.0@, entry.1@));
    }
}

/// The index of the first `c` in `s`, or the length of `s` where it has none.
pub open spec fn find(s: Seq<char>, c: char) -> nat
    decreases s.len(),
{
    if s.len() == 0 || s[0] == c {
        0
    } else {
        1 + find(s.drop_first(), c)
    }
}

/// What a piece of text between two property separators adds to a table: the name in front of
/// its first name separator with the value behind it, where neither is empty, else nothing.
pub open spec fn add_piece(
    table: Map<Seq<char>, Seq<char>>,
    piece: Seq<char>,
) -> Map<Seq<char>, Seq<char>> {
    let at = find(piece, NAME_VALUE_SEPARATOR) as int;
    if 0 < at && at + 1 < piece.len() {
        table.insert(piece.take(at), piece.skip(at + 1))
    } else {
        table
    }
}

/// A table after the pieces of `s` have been added to it from left to right.
pub open spec fn add_pieces(
    table: Map<Seq<char>, Seq<char>>,
    s: Seq<char>,
) -> Map<Seq<char>, Seq<char>>
    decreases s.len(),
{
    if s.len() == 0 {
        table
    } else {
        let end = find(s, PROPERTY_SEPARATOR) as int;
        let added = add_piece(table, s.take(end));
        if end < s.len() {
            add_pieces(added, s.skip(end + 1))
        } else {
            added
        }
    }
}

/// The table that a text describes; without a text, the empty table.
pub open spec fn decoded(text: Option<Seq<char>>) -> Map<Seq<char>, Seq<char>> {
    match text {
        Some(s) => add_pieces(Map::empty(), s),
        None => Map::empty(),
    }
}

/// The text of one property.
pub open spec fn entry_text(name: Seq<char>, value: Seq<char>) -> Seq<char> {
    name + seq![NAME_VALUE_SEPARATOR] + value + seq![PROPERTY_SEPARATOR]
}

/// The text of a list of properties.
pub open spec fn list_text(list: Seq<(Seq<char>, Seq<char>)>) -> Seq<char>
    decreases list.len(),
{
    if list.len() == 0 {
        Seq::empty()
    } else {
        entry_text(list[0].0, list[0].1) + list_text(list.drop_first())
    }
}

/// `list` holds each property of `table` once, in some order, and nothing else.
pub open spec fn lists(
    list: Seq<(Seq<char>, Seq<char>)>,
    table: Map<Seq<char>, Seq<char>>,
) -> bool {
    &&& forall|i: int, j: int|
        0 <= i < j < list.len() ==> #[trigger] list[i].0 != #[trigger] list[j].0
    &&& forall|i: int|
        0 <= i < list.len() ==> table.contains_key((#[trigger] list[i]).0) && table[list[i].0]
            == list[i].1
    &&& forall|name: Seq<char>| #[trigger]
        table.contains_key(name) ==> exists|i: int|
            0 <= i < list.len() && (#[trigger] list[i]).0 == name
}

/// `s` is the text of the properties of `table`, in an order that is left open.
pub open spec fn is_text_of(s: Seq<char>, table: Map<Seq<char>, Seq<char>>) -> bool {
    exists|list: Seq<(Seq<char>, Seq<char>)>| #[trigger]
        lists(list, table) && s == list_text(list)
}

/// `rocketmq_common::MessageDecoder::string_to_message_properties`: cuts the text at the
/// property separators and keeps of each piece the name and the value around its first name
/// separator, where neither is empty; of two pieces with one name the later one prevails. The
/// entries come in an order that is left open.
#[verifier::external_body]
fn decode_properties(properties: &Option<String>) -> (r: Vec<(String, String)>)
    ensures
        entries_map(r@) == decoded(crate::text::opt_text(*properties)),
{
    let table = rocketmq_common::MessageDecoder::string_to_message_properties(properties.as_ref());
    table.into_iter().collect()
}

/// The table that a text describes.
pub fn string_to_message_properties(properties: &Option<String>) -> (r: Properties)
    ensures
        r@ == decoded(crate::text::opt_text(*properties)),
{
    Properties::from_entries(decode_properties(properties))
}

/// `rocketmq_common::MessageDecoder::message_properties_to_string`: writes each property of the
/// table once, its name, a name separator, its value and a property separator. The table is
/// walked as a hash map, so the order is left open.
#[verifier::external_body]
pub(crate) fn message_properties_to_string(properties: &Properties) -> (r: String)
    ensures
        is_text_of(r@, properties@),
{
    let table = properties.entries.iter().cloned().collect();
    rocketmq_common::MessageDecoder::message_properties_to_string(&table)
}

/// The pieces of `s` between its property separators.
pub open spec fn pieces(s: Seq<char>) -> Seq<Seq<char>>
    decreases s.len(),
{
    let end = find(s, PROPERTY_SEPARATOR) as int;
    if end < s.len() {
        seq![s.take(end)] + pieces(s.skip(end + 1))
    } else {
        seq![s]
    }
}

/// The pieces that begin with `name`.
pub open spec fn kept(list: Seq<Seq<char>>, name: Seq<char>) -> Seq<Seq<char>>
    decreases list.len(),
{
    if list.len() == 0 {
        Seq::empty()
    } else if crate::text::has_prefix(list[0], name) {
        seq![list[0]] + kept(list.drop_first(), name)
    } else {
        kept(list.drop_first(), name)
    }
}

/// Pieces with a property separator between any two.
pub open spec fn joined(list: Seq<Seq<char>>) -> Seq<char>
    decreases list.len(),
{
    if list.len() == 0 {
        Seq::empty()
    } else if list.len() == 1 {
        list[0]
    } else {
        list[0] + seq![PROPERTY_SEPARATOR] + joined(list.drop_first())
    }
}

/// `name` occurs somewhere in `s`.
pub open spec fn occurs(s: Seq<char>, name: Seq<char>) -> bool {
    exists|i: int| 0 <= i <= s.len() && crate::text::has_prefix(#[trigger] s.skip(i), name)
}

/// What [`delete_property`] leaves of a text: all of it where `name` does not occur in it, else
/// the pieces that begin with `name`.
pub open spec fn deleted(s: Seq<char>, name: Seq<char>) -> Seq<char> {
    if occurs(s, name) {
        joined(kept(pieces(s), name))
    } else {
        s
    }
}

/// `rocketmq_common::utils::message_utils::delete_property`: gives the text back where the name
/// does not occur in it; else cuts it at the property separators, filters the pieces for those
/// that begin with the name, and joins them with a separator between any two.
#[verifier::external_body]
pub(crate) fn delete_property(properties: &str, name: &str) -> (r: String)
    ensures
        r@ == deleted(properties@, name@),
{
    rocketmq_common::utils::message_utils::delete_property(properties, name)
}

} // verus!
