//! Matching a filter name against the source of a record.
//!
//! The source of a record is a path such as `app::net::http`: components
//! separated by `::`. The first component is the crate that owns the source,
//! the components after it are the modules on the way down.

use vstd::prelude::*;
use crate::text::chars_of;

verus! {

/// Types of filter that can be added.
#[derive(Clone, Copy, Debug, PartialEq, Eq, Structural, Hash)]
pub enum FilterType {
    /// Filters by the name of a module: the name must equal a component of the
    /// source after the first one.
    Module,
    /// Filters by the crate name: the name must equal the first component of
    /// the source.
    Crate,
}

/// Whether the two characters of `s` at `i` and `i + 1` form the delimiter `::`.
pub open spec fn delimiter_at(s: Seq<char>, i: int) -> bool {
    0 <= i && i + 1 < s.len() && s[i] == ':' && s[i + 1] == ':'
}

/// The components of `s` that are still to come when the text is read from
/// left to right, the read has reached `at`, and the component being read
/// began at `start`. A delimiter is taken as soon as it is seen, so in `a:::b`
/// the components are `a` and `:b`.
pub open spec fn components_from(s: Seq<char>, start: int, at: int) -> Seq<Seq<char>>
    decreases s.len() - at,
{
    if at >= s.len() {
        seq![s.subrange(start, s.len() as int)]
    } else if delimiter_at(s, at) {
        seq![s.subrange(start, at)] + components_from(s, at + 2, at + 2)
    } else {
        components_from(s, start, at + 1)
    }
}

/// The components of a source: the pieces between its delimiters, in order.
/// The empty source has no component.
pub open spec fn components(s: Seq<char>) -> Seq<Seq<char>> {
    if s.len() == 0 {
        Seq::empty()
    } else {
        components_from(s, 0, 0)
    }
}

/// Whether a filter with this name and type applies to a source.
pub open spec fn filter_matches(name: Seq<char>, filter_type: FilterType, source: Seq<char>) -> bool {
    let parts = components(source);
    match filter_type {
        FilterType::Crate => parts.len() > 0 && parts[0] == name,
        FilterType::Module => exists|i: int| 1 <= i < parts.len() && #[trigger] parts[i] == name,
    }
}

/// Compares the characters of `text` from `from` up to `to` with `name`.
fn range_equals(text: &Vec<char>, from: usize, to: usize, name: &Vec<char>) -> (same: bool)
    requires
        from <= to <= text@.len(),
    ensures
        same == (text@.subrange(from as int, to as int) == name@),
{
    let len = to - from;
    if name.len() != len {
        return false;
    }
    let mut i: usize = 0;
    while i < len
        invariant
            from <= to <= text@.len(),
            len == to - from,
            name@.len() == len,
            i <= len,
            forall|k: int| 0 <= k < i ==> text@[from + k] == name@[k],
        decreases len - i,
    {
        if text[from + i] != name[i] {
            assert(text@.subrange(from as int, to as int)[i as int] != name@[i as int]);
            return false;
        }
        i += 1;
    }
    assert(text@.subrange(from as int, to as int) =~= name@);
    true
}

/// Decides whether the filter `name` of type `filter_type` applies to the
/// source `data`.
///
/// A `Crate` filter applies when its name is the first component of the
/// source. A `Module` filter applies when its name is one of the components
/// after the first. Names are compared character by character: there are no
/// wildcards and no partial matches. No filter applies to the empty source.
pub fn filter(name: &str, filter_type: FilterType, data: &str) -> (matched: bool)
    ensures
        matched == filter_matches(name@, filter_type, data@),
{
    let wanted = chars_of(name);
    let source = chars_of(data);
    let n = source.len();
    if n == 0 {
        return false;
    }
    let mut start: usize = 0;
    let mut at: usize = 0;
    let mut first = true;
    let ghost mut done: Seq<Seq<char>> = Seq::empty();
    while at < n
        invariant
            n == source@.len(),
            source@ == data@,
            wanted@ == name@,
            start <= at <= n,
            components(data@) == done + components_from(data@, start as int, at as int),
            first == (done.len() == 0),
            filter_type is Crate ==> first,
            filter_type is Module ==> forall|i: int| 1 <= i < done.len() ==> done[i] != name@,
        decreases n - at,
    {
        if at + 1 < n && source[at] == ':' && source[at + 1] == ':' {
            let same = range_equals(&source, start, at, &wanted);
            let ghost part = data@.subrange(start as int, at as int);
            let ghost rest = components_from(data@, at + 2, at + 2);
            assert(components(data@) == done.push(part) + rest) by {
                assert(done + (seq![part] + rest) =~= done.push(part) + rest);
            }
            if first {
                if let FilterType::Crate = filter_type {
                    assert(components(data@)[0] == part);
                    return same;
                }
            } else if same {
                assert(components(data@)[done.len() as int] == part);
                return true;
            }
            proof {
                done = done.push(part);
            }
            first = false;
            start = at + 2;
            at = at + 2;
        } else {
            at = at + 1;
        }
    }
    let same = range_equals(&source, start, n, &wanted);
    let ghost last = data@.subrange(start as int, n as int);
    assert(components(data@) == done.push(last)) by {
        assert(done + seq![last] =~= done.push(last));
    }
    match filter_type {
        FilterType::Crate => {
            assert(components(data@)[0] == last);
            same
        },
        FilterType::Module => {
            assert(components(data@)[done.len() as int] == last);
            !first && same
        },
    }
}

/// The delimiter between two components of a source.
pub open spec fn delimiter() -> Seq<char> {
    seq![':', ':']
}

/// The source that is made of the components `parts`, with a delimiter
/// between each two neighbours.
pub open spec fn join(parts: Seq<Seq<char>>) -> Seq<char>
    decreases parts.len(),
{
    if parts.len() == 0 {
        Seq::empty()
    } else if parts.len() == 1 {
        parts[0]
    } else {
        parts[0] + delimiter() + join(parts.drop_first())
    }
}

/// Whether a text holds no delimiter.
pub open spec fn delimiter_free(s: Seq<char>) -> bool {
    forall|i: int| !delimiter_at(s, i)
}

/// Whether `parts` can be the components of a source: there is at least one,
/// none holds a delimiter, and none but the last ends in a colon (which would
/// form a delimiter with the first colon of the delimiter after it).
pub open spec fn well_split(parts: Seq<Seq<char>>) -> bool {
    &&& parts.len() > 0
    &&& forall|i: int| 0 <= i < parts.len() ==> delimiter_free(#[trigger] parts[i])
    &&& forall|i: int|
        0 <= i < parts.len() - 1 && parts[i].len() > 0 ==> (#[trigger] parts[i]).last() != ':'
}

/// Reading on over characters that begin no delimiter changes nothing.
proof fn lemma_read_on(s: Seq<char>, start: int, at: int, to: int)
    requires
        0 <= start <= at <= to <= s.len(),
        forall|i: int| at <= i < to ==> !delimiter_at(s, i),
    ensures
        components_from(s, start, at) == components_from(s, start, to),
    decreases to - at,
{
    if at < to {
        lemma_read_on(s, start, at + 1, to);
    }
}

/// What is read from a place on depends only on the text from there on.
proof fn lemma_read_suffix(before: Seq<char>, s: Seq<char>, start: int, at: int)
    requires
        0 <= start <= at <= s.len(),
    ensures
        components_from(before + s, before.len() + start, before.len() + at) == components_from(
            s,
            start,
            at,
        ),
    decreases s.len() - at,
{
    let whole = before + s;
    let shift = before.len() as int;
    assert(delimiter_at(whole, shift + at) == delimiter_at(s, at));
    if at >= s.len() {
        assert(whole.subrange(shift + start, whole.len() as int) =~= s.subrange(
            start,
            s.len() as int,
        ));
    } else if delimiter_at(s, at) {
        assert(whole.subrange(shift + start, shift + at) =~= s.subrange(start, at));
        lemma_read_suffix(before, s, at + 2, at + 2);
    } else {
        lemma_read_suffix(before, s, start, at + 1);
    }
}

/// Joining components and reading the result gives the components back.
proof fn lemma_read_joined(parts: Seq<Seq<char>>)
    requires
        well_split(parts),
    ensures
        components_from(join(parts), 0, 0) == parts,
    decreases parts.len(),
{
    let s = join(parts);
    let first = parts[0];
    let k = first.len() as int;
    if parts.len() == 1 {
        assert(delimiter_free(first));
        lemma_read_on(s, 0, 0, k);
        assert(s.subrange(0, k) =~= first);
        assert(seq![first] =~= parts);
    } else {
        let rest = parts.drop_first();
        let tail = join(rest);
        assert(well_split(rest)) by {
            assert forall|i: int| 0 <= i < rest.len() implies delimiter_free(
                #[trigger] rest[i],
            ) by {
                assert(rest[i] == parts[i + 1]);
            }
            assert forall|i: int| 0 <= i < rest.len() - 1 && rest[i].len() > 0 implies (
            #[trigger] rest[i]).last() != ':' by {
                assert(rest[i] == parts[i + 1]);
            }
        }
        lemma_read_joined(rest);
        assert forall|i: int| 0 <= i < k implies !delimiter_at(s, i) by {
            assert(delimiter_free(first));
            if i + 1 < k {
                assert(delimiter_at(s, i) == delimiter_at(first, i));
            } else {
                assert(s[i] == first.last());
            }
        }
        lemma_read_on(s, 0, 0, k);
        assert(delimiter_at(s, k));
        assert(s.subrange(0, k) =~= first);
        lemma_read_suffix(first + delimiter(), tail, 0, 0);
        assert(seq![first] + rest =~= parts);
    }
}

/// What is read is well split and joins to the text that was read.
proof fn lemma_join_read(s: Seq<char>, start: int, at: int)
    requires
        0 <= start <= at <= s.len(),
        forall|i: int| start <= i < at ==> !delimiter_at(s, i),
    ensures
        well_split(components_from(s, start, at)),
        join(components_from(s, start, at)) == s.subrange(start, s.len() as int),
    decreases s.len() - at,
{
    let parts = components_from(s, start, at);
    let len = s.len() as int;
    if at >= len {
        let only = s.subrange(start, len);
        assert forall|i: int| !delimiter_at(only, i) by {
            if delimiter_at(only, i) {
                assert(delimiter_at(s, start + i));
            }
        }
    } else if delimiter_at(s, at) {
        let first = s.subrange(start, at);
        let rest = components_from(s, at + 2, at + 2);
        lemma_join_read(s, at + 2, at + 2);
        assert forall|i: int| !delimiter_at(first, i) by {
            if delimiter_at(first, i) {
                assert(delimiter_at(s, start + i));
            }
        }
        if first.len() > 0 && first.last() == ':' {
            assert(delimiter_at(s, at - 1));
        }
        assert forall|i: int| 0 <= i < parts.len() implies delimiter_free(
            #[trigger] parts[i],
        ) by {
            if i > 0 {
                assert(parts[i] == rest[i - 1]);
            }
        }
        assert forall|i: int| 0 <= i < parts.len() - 1 && parts[i].len() > 0 implies (
        #[trigger] parts[i]).last() != ':' by {
            if i > 0 {
                assert(parts[i] == rest[i - 1]);
            }
        }
        assert(parts.drop_first() =~= rest);
        assert(first + delimiter() + s.subrange(at + 2, len) =~= s.subrange(start, len));
    } else {
        lemma_join_read(s, start, at + 1);
    }
}

/// The components of a source made by joining `parts` are `parts`: the
/// source is read as it was written.
pub proof fn lemma_components_of_join(parts: Seq<Seq<char>>)
    requires
        well_split(parts),
        join(parts).len() > 0,
    ensures
        components(join(parts)) == parts,
{
    lemma_read_joined(parts);
}

/// The components of a source are well split, and joined again they give the
/// source: nothing of the source is lost or added.
pub proof fn lemma_join_of_components(source: Seq<char>)
    requires
        source.len() > 0,
    ensures
        well_split(components(source)),
        join(components(source)) == source,
{
    lemma_join_read(source, 0, 0);
    assert(source.subrange(0, source.len() as int) =~= source);
}

/// On a source made of `parts`, a crate filter applies exactly when it names
/// the first part, and a module filter exactly when it names a part after
/// the first.
pub proof fn lemma_filter_on_parts(parts: Seq<Seq<char>>, name: Seq<char>)
    requires
        well_split(parts),
        join(parts).len() > 0,
    ensures
        filter_matches(name, FilterType::Crate, join(parts)) <==> parts[0] == name,
        filter_matches(name, FilterType::Module, join(parts)) <==> exists|i: int|
            1 <= i < parts.len() && #[trigger] parts[i] == name,
{
    lemma_components_of_join(parts);
}

/// On a source `a::b::c`, a module filter that names `b` applies, and so does
/// one that names `c`; a crate filter applies only if it names `a`, and a
/// module filter only if it names `b` or `c`.
pub proof fn lemma_filter_on_path(a: Seq<char>, b: Seq<char>, c: Seq<char>, name: Seq<char>)
    requires
        well_split(seq![a, b, c]),
    ensures
        filter_matches(b, FilterType::Module, a + delimiter() + b + delimiter() + c),
        filter_matches(c, FilterType::Module, a + delimiter() + b + delimiter() + c),
        filter_matches(name, FilterType::Crate, a + delimiter() + b + delimiter() + c) <==> name
            == a,
        filter_matches(name, FilterType::Module, a + delimiter() + b + delimiter() + c) <==> name
            == b || name == c,
{
    let parts = seq![a, b, c];
    let source = a + delimiter() + b + delimiter() + c;
    assert(join(parts) =~= source) by {
        reveal_with_fuel(join, 3);
        assert(parts.drop_first() =~= seq![b, c]);
        assert(seq![b, c].drop_first() =~= seq![c]);
    }
    lemma_components_of_join(parts);
    assert(components(source)[1] == b);
    assert(components(source)[2] == c);
}

/// No filter applies to the empty source.
pub proof fn lemma_empty_source(name: Seq<char>, filter_type: FilterType)
    ensures
        !filter_matches(name, filter_type, Seq::empty()),
{
}

} // verus!
