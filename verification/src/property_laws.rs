//! What holds of the text of message properties.

use vstd::prelude::*;

use crate::properties;
use crate::properties::{NAME_VALUE_SEPARATOR, PROPERTY_SEPARATOR};

verus! {

/// A table that its text describes in full: no name is empty or holds a separator, and no value
/// is empty or holds a property separator.
pub open spec fn writable(table: Map<Seq<char>, Seq<char>>) -> bool {
    forall|name: Seq<char>| #[trigger]
        table.contains_key(name) ==> writable_name(name) && writable_value(table[name])
}

/// A name that can be read back.
pub open spec fn writable_name(name: Seq<char>) -> bool {
    name.len() > 0 && !name.contains(NAME_VALUE_SEPARATOR) && !name.contains(PROPERTY_SEPARATOR)
}

/// A value that can be read back.
pub open spec fn writable_value(value: Seq<char>) -> bool {
    value.len() > 0 && !value.contains(PROPERTY_SEPARATOR)
}

/// `find` gives the first place of a character.
proof fn lemma_find(s: Seq<char>, c: char)
    ensures
        properties::find(s, c) <= s.len(),
        properties::find(s, c) < s.len() ==> s[properties::find(s, c) as int] == c,
        forall|j: int| 0 <= j < properties::find(s, c) ==> s[j] != c,
    decreases s.len(),
{
    if s.len() > 0 && s[0] != c {
        lemma_find(s.drop_first(), c);
        assert forall|j: int| 0 <= j < properties::find(s, c) implies s[j] != c by {
            if j > 0 {
                assert(s.drop_first()[j - 1] == s[j]);
            }
        }
    }
}

/// A character that a text first holds at `at` is found there.
proof fn lemma_find_at(s: Seq<char>, c: char, at: int)
    requires
        0 <= at < s.len(),
        s[at] == c,
        forall|j: int| 0 <= j < at ==> s[j] != c,
    ensures
        properties::find(s, c) == at,
{
    lemma_find(s, c);
}

/// The text of a property in front of other text adds that property first.
proof fn lemma_add_entry(
    table: Map<Seq<char>, Seq<char>>,
    name: Seq<char>,
    value: Seq<char>,
    rest: Seq<char>,
)
    requires
        writable_name(name),
        writable_value(value),
    ensures
        properties::add_pieces(table, properties::entry_text(name, value) + rest)
            == properties::add_pieces(table.insert(name, value), rest),
{
    let piece = name + seq![NAME_VALUE_SEPARATOR] + value;
    let s = properties::entry_text(name, value) + rest;
    let end = piece.len() as int;
    assert(s[end] == PROPERTY_SEPARATOR);
    assert forall|j: int| 0 <= j < end implies s[j] != PROPERTY_SEPARATOR by {
        if j < name.len() {
            assert(s[j] == name[j]);
        } else if j > name.len() {
            assert(s[j] == value[j - name.len() - 1]);
        }
    }
    lemma_find_at(s, PROPERTY_SEPARATOR, end);
    assert(s.take(end) =~= piece);
    assert(s.skip(end + 1) =~= rest);
    assert(piece[name.len() as int] == NAME_VALUE_SEPARATOR);
    assert forall|j: int| 0 <= j < name.len() implies piece[j] != NAME_VALUE_SEPARATOR by {
        assert(piece[j] == name[j]);
    }
    lemma_find_at(piece, NAME_VALUE_SEPARATOR, name.len() as int);
    assert(piece.take(name.len() as int) =~= name);
    assert(piece.skip(name.len() as int + 1) =~= value);
    if rest.len() == 0 {
        assert(rest =~= Seq::empty());
    }
}

/// A table after the properties of a list have been put into it from left to right.
spec fn put_all(
    table: Map<Seq<char>, Seq<char>>,
    list: Seq<(Seq<char>, Seq<char>)>,
) -> Map<Seq<char>, Seq<char>>
    decreases list.len(),
{
    if list.len() == 0 {
        table
    } else {
        put_all(table.insert(list[0].0, list[0].1), list.drop_first())
    }
}

/// Reading the text of a list puts its properties into the table one by one.
proof fn lemma_add_list(
    table: Map<Seq<char>, Seq<char>>,
    list: Seq<(Seq<char>, Seq<char>)>,
)
    requires
        forall|i: int|
            0 <= i < list.len() ==> writable_name((#[trigger] list[i]).0) && writable_value(
                list[i].1,
            ),
    ensures
        properties::add_pieces(table, properties::list_text(list)) == put_all(
            table,
            list,
        ),
    decreases list.len(),
{
    if list.len() > 0 {
        let rest = list.drop_first();
        lemma_add_entry(table, list[0].0, list[0].1, properties::list_text(rest));
        assert forall|i: int| 0 <= i < rest.len() implies writable_name((#[trigger] rest[i]).0)
            && writable_value(rest[i].1) by {
            assert(rest[i] == list[i + 1]);
        }
        lemma_add_list(table.insert(list[0].0, list[0].1), rest);
    }
}

/// What `put_all` makes of one name.
proof fn lemma_put_all(
    table: Map<Seq<char>, Seq<char>>,
    list: Seq<(Seq<char>, Seq<char>)>,
    name: Seq<char>,
)
    requires
        forall|i: int, j: int|
            0 <= i < j < list.len() ==> #[trigger] list[i].0 != #[trigger] list[j].0,
    ensures
        forall|i: int|
            0 <= i < list.len() && (#[trigger] list[i]).0 == name ==> put_all(
                table,
                list,
            ).contains_key(name) && put_all(table, list)[name] == list[i].1,
        (forall|i: int| 0 <= i < list.len() ==> (#[trigger] list[i]).0 != name) ==> {
            &&& put_all(table, list).contains_key(name) == table.contains_key(name)
            &&& put_all(table, list)[name] == table[name]
        },
    decreases list.len(),
{
    if list.len() > 0 {
        let rest = list.drop_first();
        assert forall|i: int, j: int| 0 <= i < j < rest.len() implies #[trigger] rest[i].0
            != #[trigger] rest[j].0 by {
            assert(list[i + 1].0 != list[j + 1].0);
        }
        lemma_put_all(table.insert(list[0].0, list[0].1), rest, name);
        assert forall|i: int| 0 <= i < list.len() && (#[trigger] list[i]).0 == name implies put_all(
            table,
            list,
        ).contains_key(name) && put_all(table, list)[name] == list[i].1 by {
            if i == 0 {
                assert forall|k: int| 0 <= k < rest.len() implies (#[trigger] rest[k]).0 != name by {
                    assert(list[0].0 != list[k + 1].0);
                }
            } else {
                assert(rest[i - 1] == list[i]);
            }
        }
        if forall|i: int| 0 <= i < list.len() ==> (#[trigger] list[i]).0 != name {
            assert forall|k: int| 0 <= k < rest.len() implies (#[trigger] rest[k]).0 != name by {
                assert(list[k + 1].0 != name);
            }
            assert(list[0].0 != name);
        }
    }
}

/// Reading the text of a table gives the table back, in whatever order it was written.
pub proof fn properties_text_reads_back(table: Map<Seq<char>, Seq<char>>, s: Seq<char>)
    requires
        writable(table),
        properties::is_text_of(s, table),
    ensures
        properties::decoded(Some(s)) == table,
{
    let list = choose|list: Seq<(Seq<char>, Seq<char>)>| #[trigger]
        properties::lists(list, table) && s == properties::list_text(list);
    let empty = Map::<Seq<char>, Seq<char>>::empty();
    assert forall|i: int| 0 <= i < list.len() implies writable_name((#[trigger] list[i]).0)
        && writable_value(list[i].1) by {
        assert(table.contains_key(list[i].0));
    }
    lemma_add_list(empty, list);
    let read = put_all(empty, list);
    assert forall|name: Seq<char>| #[trigger]
        read.contains_key(name) == table.contains_key(name) && (table.contains_key(name)
            ==> read[name] == table[name]) by {
        lemma_put_all(empty, list, name);
        if table.contains_key(name) {
            let i = choose|i: int| 0 <= i < list.len() && (#[trigger] list[i]).0 == name;
            assert(list[i].0 == name);
        }
    }
    assert(read =~= table);
}

/// Adding the pieces of a text keeps a table writable.
proof fn lemma_add_pieces_writable(table: Map<Seq<char>, Seq<char>>, s: Seq<char>)
    requires
        writable(table),
    ensures
        writable(properties::add_pieces(table, s)),
    decreases s.len(),
{
    if s.len() > 0 {
        lemma_find(s, PROPERTY_SEPARATOR);
        let end = properties::find(s, PROPERTY_SEPARATOR) as int;
        let piece = s.take(end);
        lemma_find(piece, NAME_VALUE_SEPARATOR);
        let at = properties::find(piece, NAME_VALUE_SEPARATOR) as int;
        let added = properties::add_piece(table, piece);
        if 0 < at && at + 1 < piece.len() {
            let name = piece.take(at);
            let value = piece.skip(at + 1);
            assert forall|j: int| 0 <= j < name.len() implies name[j] != PROPERTY_SEPARATOR
                && name[j] != NAME_VALUE_SEPARATOR by {
                assert(name[j] == piece[j] && piece[j] == s[j]);
            }
            assert forall|j: int| 0 <= j < value.len() implies value[j] != PROPERTY_SEPARATOR by {
                assert(value[j] == s[at + 1 + j]);
            }
            assert(writable_name(name) && writable_value(value));
        }
        assert(writable(added));
        if end < s.len() {
            lemma_add_pieces_writable(added, s.skip(end + 1));
        }
    }
}

/// A table that was read from a text can be written and read back: no name or value of it is
/// empty or holds a separator that would cut it.
pub proof fn decoded_table_is_writable(text: Option<Seq<char>>)
    ensures
        writable(properties::decoded(text)),
{
    if let Some(s) = text {
        lemma_add_pieces_writable(Map::empty(), s);
    }
}

/// A piece without a property separator.
spec fn whole_pieces(list: Seq<Seq<char>>) -> bool {
    forall|i: int| 0 <= i < list.len() ==> !(#[trigger] list[i]).contains(PROPERTY_SEPARATOR)
}

/// The pieces of a text hold no property separator.
proof fn lemma_pieces_whole(s: Seq<char>)
    ensures
        whole_pieces(properties::pieces(s)),
        properties::pieces(s).len() > 0,
    decreases s.len(),
{
    lemma_find(s, PROPERTY_SEPARATOR);
    let end = properties::find(s, PROPERTY_SEPARATOR) as int;
    if end < s.len() {
        let rest = properties::pieces(s.skip(end + 1));
        lemma_pieces_whole(s.skip(end + 1));
        assert forall|i: int| 0 <= i < properties::pieces(s).len() implies !(
        #[trigger] properties::pieces(s)[i]).contains(PROPERTY_SEPARATOR) by {
            if i > 0 {
                assert(properties::pieces(s)[i] == rest[i - 1]);
            }
        }
    }
}

/// The kept pieces begin with the name and hold no property separator.
proof fn lemma_kept(list: Seq<Seq<char>>, name: Seq<char>)
    requires
        whole_pieces(list),
    ensures
        whole_pieces(properties::kept(list, name)),
        forall|i: int|
            0 <= i < properties::kept(list, name).len() ==> crate::text::has_prefix(
                #[trigger] properties::kept(list, name)[i],
                name,
            ),
    decreases list.len(),
{
    if list.len() > 0 {
        let tail = list.drop_first();
        assert forall|i: int| 0 <= i < tail.len() implies !(#[trigger] tail[i]).contains(
            PROPERTY_SEPARATOR,
        ) by {
            assert(tail[i] == list[i + 1]);
        }
        lemma_kept(tail, name);
        if crate::text::has_prefix(list[0], name) {
            let all = properties::kept(list, name);
            let rest = properties::kept(tail, name);
            assert forall|i: int| 0 <= i < all.len() implies !(#[trigger] all[i]).contains(
                PROPERTY_SEPARATOR,
            ) && crate::text::has_prefix(all[i], name) by {
                if i > 0 {
                    assert(all[i] == rest[i - 1]);
                }
            }
        }
    }
}

/// Pieces that all begin with the name are all kept.
proof fn lemma_kept_all(list: Seq<Seq<char>>, name: Seq<char>)
    requires
        forall|i: int| 0 <= i < list.len() ==> crate::text::has_prefix(#[trigger] list[i], name),
    ensures
        properties::kept(list, name) == list,
    decreases list.len(),
{
    if list.len() > 0 {
        let tail = list.drop_first();
        assert forall|i: int| 0 <= i < tail.len() implies crate::text::has_prefix(
            #[trigger] tail[i],
            name,
        ) by {
            assert(tail[i] == list[i + 1]);
        }
        lemma_kept_all(tail, name);
        assert(seq![list[0]] + tail =~= list);
    } else {
        assert(properties::kept(list, name) =~= list);
    }
}

/// Cutting joined pieces gives the pieces back.
proof fn lemma_pieces_of_joined(list: Seq<Seq<char>>)
    requires
        list.len() > 0,
        whole_pieces(list),
    ensures
        properties::pieces(properties::joined(list)) == list,
    decreases list.len(),
{
    let s = properties::joined(list);
    lemma_find(s, PROPERTY_SEPARATOR);
    if list.len() == 1 {
        assert(!list[0].contains(PROPERTY_SEPARATOR));
        assert(seq![s] =~= list);
    } else {
        let tail = list.drop_first();
        assert forall|i: int| 0 <= i < tail.len() implies !(#[trigger] tail[i]).contains(
            PROPERTY_SEPARATOR,
        ) by {
            assert(tail[i] == list[i + 1]);
        }
        lemma_pieces_of_joined(tail);
        let end = list[0].len() as int;
        assert(s[end] == PROPERTY_SEPARATOR);
        assert forall|j: int| 0 <= j < end implies s[j] != PROPERTY_SEPARATOR by {
            assert(s[j] == list[0][j]);
            assert(!list[0].contains(PROPERTY_SEPARATOR));
        }
        lemma_find_at(s, PROPERTY_SEPARATOR, end);
        assert(s.take(end) =~= list[0]);
        assert(s.skip(end + 1) =~= properties::joined(tail));
        assert(seq![list[0]] + tail =~= list);
    }
}

/// What `deleted` leaves of a text stays when that is done a second time.
pub proof fn delete_property_is_idempotent(s: Seq<char>, name: Seq<char>)
    ensures
        properties::deleted(properties::deleted(s, name), name) == properties::deleted(s, name),
{
    if properties::occurs(s, name) {
        let list = properties::kept(properties::pieces(s), name);
        lemma_pieces_whole(s);
        lemma_kept(properties::pieces(s), name);
        let once = properties::joined(list);
        if list.len() == 0 {
            assert(once =~= Seq::empty());
            if properties::occurs(once, name) {
                assert(name =~= Seq::empty());
                assert(properties::pieces(once) =~= seq![once]);
                assert(crate::text::has_prefix(once, name)) by {
                    assert(once.take(0) =~= name);
                }
                assert(properties::kept(seq![once], name) =~= seq![once]) by {
                    lemma_kept_all(seq![once], name);
                }
            }
        } else {
            lemma_pieces_of_joined(list);
            lemma_kept_all(list, name);
        }
    }
}

/// Cutting a text and joining its pieces gives the text back.
pub proof fn cutting_and_joining_gives_the_text_back(s: Seq<char>)
    ensures
        properties::joined(properties::pieces(s)) == s,
    decreases s.len(),
{
    lemma_find(s, PROPERTY_SEPARATOR);
    let end = properties::find(s, PROPERTY_SEPARATOR) as int;
    if end < s.len() {
        let rest = s.skip(end + 1);
        cutting_and_joining_gives_the_text_back(rest);
        lemma_pieces_whole(rest);
        assert(properties::pieces(s).drop_first() =~= properties::pieces(rest));
        assert(s =~= s.take(end) + seq![PROPERTY_SEPARATOR] + rest);
    }
}

/// Where the name occurs in a text, the deletion leaves those of its pieces that begin with the
/// name, in their order; where it does not, it leaves the text.
pub proof fn deletion_leaves_the_pieces_that_begin_with_the_name(s: Seq<char>, name: Seq<char>)
    ensures
        (exists|front: Seq<char>, back: Seq<char>| s == #[trigger] (front + name + back))
            ==> properties::deleted(s, name) == properties::joined(
            properties::pieces(s).filter(
                |piece: Seq<char>| piece.len() >= name.len() && piece.take(name.len() as int) == name,
            ),
        ),
        !(exists|front: Seq<char>, back: Seq<char>| s == #[trigger] (front + name + back))
            ==> properties::deleted(s, name) == s,
{
    lemma_kept_is_filter(properties::pieces(s), name);
    if exists|front: Seq<char>, back: Seq<char>| s == #[trigger] (front + name + back) {
        let (front, back) = choose|front: Seq<char>, back: Seq<char>|
            s == #[trigger] (front + name + back);
        let at = front.len() as int;
        assert(s.skip(at).take(name.len() as int) =~= name);
        assert(crate::text::has_prefix(s.skip(at), name));
    }
    if properties::occurs(s, name) {
        let at = choose|at: int|
            0 <= at <= s.len() && crate::text::has_prefix(#[trigger] s.skip(at), name);
        let back = s.skip(at).skip(name.len() as int);
        assert(s =~= s.take(at) + name + back) by {
            assert(s.skip(at) =~= name + back);
        }
    }
}

/// Keeping the pieces that begin with a name is filtering for them.
proof fn lemma_kept_is_filter(list: Seq<Seq<char>>, name: Seq<char>)
    ensures
        properties::kept(list, name) == list.filter(
            |piece: Seq<char>| piece.len() >= name.len() && piece.take(name.len() as int) == name,
        ),
    decreases list.len(),
{
    let begins = |piece: Seq<char>|
        piece.len() >= name.len() && piece.take(name.len() as int) == name;
    if list.len() == 0 {
        reveal(Seq::filter);
        assert(list.filter(begins) =~= Seq::empty());
    } else {
        let first = seq![list[0]];
        let tail = list.drop_first();
        lemma_kept_is_filter(tail, name);
        assert(list =~= first + tail);
        Seq::filter_distributes_over_add(first, tail, begins);
        assert(first.filter(begins) =~= (if begins(list[0]) {
            first
        } else {
            Seq::empty()
        })) by {
            reveal(Seq::filter);
            assert(first.drop_last() =~= Seq::empty());
            assert(first.drop_last().filter(begins) =~= Seq::empty());
        }
    }
}

/// A property written behind a text of properties is read last: it sets its name, in the place of
/// an earlier value, and leaves every other name as it is.
pub proof fn a_property_written_last_prevails(s: Seq<char>, name: Seq<char>, value: Seq<char>)
    requires
        s.len() == 0 || s.last() == PROPERTY_SEPARATOR,
        writable_name(name),
        writable_value(value),
    ensures
        properties::decoded(Some(s + properties::entry_text(name, value))) == properties::decoded(
            Some(s),
        ).insert(name, value),
{
    lemma_add_last(Map::empty(), s, name, value);
}

/// Reading a text and the property behind it puts that property in last.
proof fn lemma_add_last(
    table: Map<Seq<char>, Seq<char>>,
    s: Seq<char>,
    name: Seq<char>,
    value: Seq<char>,
)
    requires
        s.len() == 0 || s.last() == PROPERTY_SEPARATOR,
        writable_name(name),
        writable_value(value),
    ensures
        properties::add_pieces(table, s + properties::entry_text(name, value))
            == properties::add_pieces(table, s).insert(name, value),
    decreases s.len(),
{
    let entry = properties::entry_text(name, value);
    let all = s + entry;
    if s.len() == 0 {
        lemma_add_entry(table, name, value, Seq::empty());
        assert(all =~= entry + Seq::<char>::empty());
    } else {
        lemma_find(s, PROPERTY_SEPARATOR);
        let end = properties::find(s, PROPERTY_SEPARATOR) as int;
        assert(s[s.len() - 1] == PROPERTY_SEPARATOR);
        assert(all[end] == PROPERTY_SEPARATOR);
        assert forall|j: int| 0 <= j < end implies all[j] != PROPERTY_SEPARATOR by {
            assert(all[j] == s[j]);
        }
        lemma_find_at(all, PROPERTY_SEPARATOR, end);
        let added = properties::add_piece(table, s.take(end));
        let rest = s.skip(end + 1);
        assert(all.take(end) =~= s.take(end));
        assert(all.skip(end + 1) =~= rest + entry);
        if rest.len() > 0 {
            assert(rest.last() == s.last());
        }
        lemma_add_last(added, rest, name, value);
    }
}

} // verus!
