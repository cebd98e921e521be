//! Names for containers and images, and the command line of a container.

use vstd::prelude::*;
use vstd::string::*;
use crate::text::{is_plain_name, last_before_bounds, texts};

verus! {

/// Whether `c` is a decimal digit or a letter from `a` to `f`.
pub open spec fn is_lower_hex(c: char) -> bool {
    ('0' <= c && c <= '9') || ('a' <= c && c <= 'f')
}

/// Whether `s` has the shape of a random identifier: 36 characters, a
/// hyphen at the indices 8, 13, 18 and 23, a lowercase hexadecimal digit
/// everywhere else.
pub open spec fn is_identifier(s: Seq<char>) -> bool {
    &&& s.len() == 36
    &&& forall|i: int|
        0 <= i < 36 ==> if i == 8 || i == 13 || i == 18 || i == 23 {
            #[trigger] s[i] == '-'
        } else {
            is_lower_hex(s[i])
        }
}

/// A random identifier. Calls `uuid::Uuid::new_v4` and `to_string` on the
/// result. Trusted: that the text is the hyphenated lowercase form, as
/// `Display` for `Uuid` writes it. Nothing is claimed of which identifier
/// comes back. The call does not return where the system hands out no
/// random bytes.
#[verifier::external_body]
pub(crate) fn fresh_identifier() -> (r: String)
    ensures
        is_identifier(r@),
{
    uuid::Uuid::new_v4().to_string()
}

/// A random identifier is a plain name: it can be joined to a store's root
/// and reads back unchanged.
pub proof fn identifier_is_plain_name(s: Seq<char>)
    requires
        is_identifier(s),
    ensures
        is_plain_name(s),
{
    assert forall|i: int| 0 <= i < s.len() implies s[i] != '/' && s[i] != '.' by {
        if i == 8 || i == 13 || i == 18 || i == 23 {
            assert(s[i] == '-');
        } else {
            assert(is_lower_hex(s[i]));
        }
    }
    last_before_bounds(s, '.', s.len() as int);
    assert(s != seq!['.']) by {
        assert(seq!['.'].len() == 1);
    }
}

/// Whether a character is alphanumeric, as `char::is_alphanumeric` of the
/// standard library decides it from the Unicode tables.
pub uninterp spec fn alphanumeric(c: char) -> bool;

/// `char::is_alphanumeric`. Trusted: that its result depends on the
/// character alone.
pub assume_specification[ char::is_alphanumeric ](c: char) -> (r: bool)
    ensures
        r == alphanumeric(c),
;

/// Whether a character may stand in a container's name: it is
/// alphanumeric or a dash.
pub open spec fn is_name_char(c: char) -> bool {
    alphanumeric(c) || c == '-'
}

/// The test by which a requested name is filtered.
pub open spec fn name_filter() -> spec_fn(char) -> bool {
    |c: char| is_name_char(c)
}

/// The characters of a requested name that may stand in a container's
/// name, in their order.
pub fn sanitize_name(name: &str) -> (r: String)
    ensures
        r@ == name@.filter(name_filter()),
        r@.len() <= name@.len(),
        forall|i: int| 0 <= i < r@.len() ==> is_name_char(#[trigger] r@[i]),
{
    let n: usize = name.unicode_len();
    let mut out: String = String::new();
    let mut i: usize = 0;
    proof {
        assert(name@.take(0) =~= Seq::<char>::empty());
        reveal(Seq::filter);
    }
    while i < n
        invariant
            i <= n,
            n == name@.len(),
            out@ == name@.take(i as int).filter(name_filter()),
        decreases n - i,
    {
        let c: char = name.get_char(i);
        proof {
            assert(name@.take(i as int + 1) =~= name@.take(i as int).push(c));
            name@.take(i as int).lemma_filter_push(c, name_filter());
            assert(name@.subrange(i as int, i as int + 1) =~= seq![c]);
            assert(out@ + seq![c] =~= out@.push(c));
        }
        if c.is_alphanumeric() || c == '-' {
            out.append(name.substring_char(i, i + 1));
        }
        i += 1;
    }
    proof {
        assert(name@.take(n as int) =~= name@);
        name@.lemma_filter_len(name_filter());
        assert forall|k: int| 0 <= k < out@.len() implies is_name_char(#[trigger] out@[k]) by {
            name@.lemma_filter_pred(name_filter(), k);
        }
    }
    out
}

/// The identifier of a new container: the requested name reduced to the
/// characters that may stand in one, or a random identifier where none was
/// requested.
pub fn container_id(requested: Option<&str>) -> (r: String)
    ensures
        match requested {
            Some(name) => r@ == name@.filter(name_filter()),
            None => is_identifier(r@),
        },
        requested is Some ==> forall|i: int| 0 <= i < r@.len() ==> is_name_char(#[trigger] r@[i]),
{
    match requested {
        Some(name) => sanitize_name(name),
        None => fresh_identifier(),
    }
}

/// A command and its arguments with one space between each two.
pub open spec fn spaced(command: Seq<char>, args: Seq<Seq<char>>) -> Seq<char>
    decreases args.len(),
{
    if args.len() == 0 {
        command
    } else {
        spaced(command, args.drop_last()) + seq![' '] + args.last()
    }
}

/// The command line that a command and its arguments make.
pub fn command_line(command: &str, args: &Vec<String>) -> (r: String)
    ensures
        r@ == spaced(command@, texts(args@)),
{
    let mut out: String = String::from_str(command);
    let mut i: usize = 0;
    proof {
        assert(texts(args@).take(0) =~= Seq::<Seq<char>>::empty());
    }
    while i < args.len()
        invariant
            i <= args@.len(),
            out@ == spaced(command@, texts(args@).take(i as int)),
        decreases args@.len() - i,
    {
        proof {
            reveal_strlit(" ");
            assert(" "@ =~= seq![' ']);
            let next = texts(args@).take(i as int + 1);
            assert(next.drop_last() =~= texts(args@).take(i as int));
            assert(next.last() == args@[i as int]@);
        }
        out.append(" ");
        out.append(args[i].as_str());
        i += 1;
    }
    proof {
        assert(texts(args@).take(args@.len() as int) =~= texts(args@));
    }
    out
}

} // verus!
