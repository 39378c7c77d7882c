//! What holds of JSON objects: every member that was put in is written.

use vstd::prelude::*;

use crate::json::{object, with_member, with_member_if};

verus! {

/// A member of an object, with what stands before and behind it.
pub open spec fn written(before: Seq<char>, name: Seq<char>, value: Seq<char>, after: Seq<char>) -> Seq<char> {
    before + "\""@ + name + "\":"@ + value + after
}

/// Whether a text holds a member of some name with some value.
pub open spec fn writes(text: Seq<char>, name: Seq<char>, value: Seq<char>) -> bool {
    exists|before: Seq<char>, after: Seq<char>| text == #[trigger] written(before, name, value, after)
}

/// A member that is put into an object is written, and so is every member before it.
pub proof fn members_are_written(body: Seq<char>, name: Seq<char>, value: Seq<char>)
    ensures
        writes(with_member(body, name, value), name, value),
        forall|n: Seq<char>, v: Seq<char>| #[trigger]
            writes(body, n, v) ==> writes(with_member(body, name, value), n, v),
{
    let whole = with_member(body, name, value);
    reveal_strlit("\"");
    reveal_strlit(",\"");
    let before = body + (if body.len() == 0 {
        Seq::<char>::empty()
    } else {
        seq![',']
    });
    assert(whole =~= written(before, name, value, Seq::empty()));
    let lead = if body.len() == 0 {
        "\""@
    } else {
        ",\""@
    };
    let rest = lead + name + "\":"@ + value;
    assert forall|n: Seq<char>, v: Seq<char>| #[trigger] writes(body, n, v) implies writes(whole, n, v) by {
        let (a, b) = choose|a: Seq<char>, b: Seq<char>| body == #[trigger] written(a, n, v, b);
        assert(whole =~= written(a, n, v, b + rest));
    }
}

/// A member that is there is written, and every member before it stays written either way.
pub proof fn members_there_are_written(body: Seq<char>, present: bool, name: Seq<char>, value: Seq<char>)
    ensures
        present ==> writes(with_member_if(body, present, name, value), name, value),
        !present ==> with_member_if(body, present, name, value) == body,
        forall|n: Seq<char>, v: Seq<char>| #[trigger]
            writes(body, n, v) ==> writes(with_member_if(body, present, name, value), n, v),
{
    members_are_written(body, name, value);
}

/// An object writes what its body writes.
pub proof fn objects_write_their_body(body: Seq<char>)
    ensures
        forall|n: Seq<char>, v: Seq<char>| #[trigger] writes(body, n, v) ==> writes(object(body), n, v),
{
    assert forall|n: Seq<char>, v: Seq<char>| #[trigger] writes(body, n, v) implies writes(object(body), n, v) by {
        let (a, b) = choose|a: Seq<char>, b: Seq<char>| body == #[trigger] written(a, n, v, b);
        assert(object(body) =~= written("{"@ + a, n, v, b + "}"@));
    }
}

} // verus!
