//! Names that every file system takes.

use crate::text::chars_of;
use vstd::prelude::*;
use vstd::string::*;

verus! {

/// The character is left out of file names.
pub open spec fn is_unsafe_char(c: char) -> bool {
    ||| c == '/'
    ||| c == '\\'
    ||| c == ':'
    ||| c == '*'
    ||| c == '?'
    ||| c == '"'
    ||| c == '<'
    ||| c == '>'
    ||| c == '|'
    ||| c == ' '
}

/// What is left of a name once every unsafe character is taken out.
pub open spec fn safe_name(name: Seq<char>) -> Seq<char> {
    name.filter(|c: char| !is_unsafe_char(c))
}

/// Takes the characters out of a name that some file system does not accept.
pub fn make_file_system_safe_name(name: &str) -> (safe: String)
    ensures
        safe@ == safe_name(name@),
{
    let chars = chars_of(name);
    let mut safe = String::new();
    let mut i: usize = 0;
    let ghost keep = |c: char| !is_unsafe_char(c);
    assert(name@.take(0) =~= Seq::<char>::empty());
    assert(Seq::<char>::empty().filter(keep) =~= Seq::<char>::empty()) by {
        reveal(Seq::filter);
    }
    while i < chars.len()
        invariant
            chars@ == name@,
            i <= chars@.len(),
            keep == (|c: char| !is_unsafe_char(c)),
            safe@ == name@.take(i as int).filter(keep),
        decreases chars@.len() - i,
    {
        let c = chars[i];
        let dropped: bool = c == '/' || c == '\\' || c == ':' || c == '*' || c == '?' || c == '"'
            || c == '<' || c == '>' || c == '|' || c == ' ';
        assert(name@.take(i + 1).drop_last() =~= name@.take(i as int));
        assert(name@.take(i + 1).last() == c);
        assert(name@.take(i + 1).filter(keep) == if keep(c) {
            name@.take(i as int).filter(keep).push(c)
        } else {
            name@.take(i as int).filter(keep)
        }) by {
            reveal(Seq::filter);
        }
        if !dropped {
            safe.push(c);
        }
        i = i + 1;
    }
    assert(name@.take(name@.len() as int) =~= name@);
    safe
}

/// A safe name holds no unsafe character, and holds no character that the name did not hold.
pub proof fn safe_name_is_safe(name: Seq<char>)
    ensures
        forall|i: int|
            0 <= i < safe_name(name).len() ==> !is_unsafe_char(#[trigger] safe_name(name)[i])
                && name.contains(safe_name(name)[i]),
        safe_name(name).len() <= name.len(),
    decreases name.len(),
{
    reveal(Seq::filter);
    if name.len() > 0 {
        let start = name.drop_last();
        safe_name_is_safe(start);
        assert forall|i: int| 0 <= i < safe_name(name).len() implies !is_unsafe_char(
            #[trigger] safe_name(name)[i],
        ) && name.contains(safe_name(name)[i]) by {
            if i < safe_name(start).len() {
                assert(safe_name(name)[i] == safe_name(start)[i]);
                let j = choose|j: int| 0 <= j < start.len() && start[j] == safe_name(start)[i];
                assert(name[j] == start[j]);
            } else {
                assert(name[name.len() - 1] == safe_name(name)[i]);
            }
        }
    }
}

/// A name without unsafe characters stays as it is.
pub proof fn safe_name_is_kept(name: Seq<char>)
    requires
        forall|i: int| 0 <= i < name.len() ==> !is_unsafe_char(#[trigger] name[i]),
    ensures
        safe_name(name) == name,
    decreases name.len(),
{
    reveal(Seq::filter);
    if name.len() > 0 {
        assert forall|i: int| 0 <= i < name.drop_last().len() implies !is_unsafe_char(
            #[trigger] name.drop_last()[i],
        ) by {
            assert(name.drop_last()[i] == name[i]);
        }
        safe_name_is_kept(name.drop_last());
        assert(name.drop_last().push(name.last()) =~= name);
    }
}

/// Making a name safe twice changes no more than making it safe once.
pub proof fn safe_name_is_idempotent(name: Seq<char>)
    ensures
        safe_name(safe_name(name)) == safe_name(name),
{
    safe_name_is_safe(name);
    safe_name_is_kept(safe_name(name));
}

/// Names are made safe character by character, and the ten characters that go are these.
pub proof fn characters_go_one_by_one(a: Seq<char>, b: Seq<char>, c: char)
    ensures
        safe_name(a + b) == safe_name(a) + safe_name(b),
        "/\\:*?\"<>| "@.contains(c) ==> safe_name(seq![c]) == Seq::<char>::empty(),
        !"/\\:*?\"<>| "@.contains(c) ==> safe_name(seq![c]) == seq![c],
{
    Seq::filter_distributes_over_add(a, b, |c: char| !is_unsafe_char(c));
    reveal_strlit("/\\:*?\"<>| ");
    let unsafe_chars = "/\\:*?\"<>| "@;
    assert(unsafe_chars.len() == 10);
    assert(is_unsafe_char(c) ==> unsafe_chars.contains(c)) by {
        assert(unsafe_chars[0] == '/' && unsafe_chars[1] == '\\' && unsafe_chars[2] == ':');
        assert(unsafe_chars[3] == '*' && unsafe_chars[4] == '?' && unsafe_chars[5] == '"');
        assert(unsafe_chars[6] == '<' && unsafe_chars[7] == '>' && unsafe_chars[8] == '|');
        assert(unsafe_chars[9] == ' ');
    }
    assert(unsafe_chars.contains(c) ==> is_unsafe_char(c));
    reveal_with_fuel(Seq::filter, 3);
    assert(seq![c].drop_last() =~= Seq::<char>::empty());
    assert(safe_name(seq![c]) =~= if is_unsafe_char(c) {
        Seq::<char>::empty()
    } else {
        seq![c]
    });
}

} // verus!
