//! Walk-throughs of the ownership rules, one function each.
//!
//! A value of a fixed size (an integer, a `bool`, a `char`, a tuple of such)
//! is copied when it is assigned or passed on, and the binding it came from
//! stays usable. A [`TextBuffer`] owns storage of its own, so assigning it or
//! passing it by value moves it: the binding it came from is no longer usable,
//! which the compiler enforces, and the storage is given back once, where the
//! last owner goes out of scope. Each function hands back what its bindings
//! hold at the end, so that its contract can say what that is.

use vstd::prelude::*;
use vstd::string::StringSliceAdditionalSpecFns;
use vstd::utf8::*;
use crate::buffer::TextBuffer;

verus! {

/// The literals that the walk-throughs use take one byte for each character.
proof fn lemma_literal_lengths()
    ensures
        "Hello".spec_bytes().len() == 5,
        "hello".spec_bytes().len() == 5,
        "Heya".spec_bytes().len() == 4,
        ", boy".spec_bytes().len() == 5,
        "Heya"@ + ", boy"@ == "Heya, boy"@,
{
    reveal_strlit("Hello");
    reveal_strlit("hello");
    reveal_strlit("Heya");
    reveal_strlit(", boy");
    reveal_strlit("Heya, boy");
    assert(is_ascii_chars("Hello"@));
    assert(is_ascii_chars("hello"@));
    assert(is_ascii_chars("Heya"@));
    assert(is_ascii_chars(", boy"@));
    is_ascii_chars_encode_utf8("Hello"@);
    is_ascii_chars_encode_utf8("hello"@);
    is_ascii_chars_encode_utf8("Heya"@);
    is_ascii_chars_encode_utf8(", boy"@);
    assert("Heya"@ + ", boy"@ =~= "Heya, boy"@);
}

/// A literal is usable from its declaration to the end of the scope.
pub fn variable_scope() -> (salutation: &'static str)
    ensures
        salutation@ == "Hello"@,
{
    let salutation: &'static str = "Hello";
    salutation
}

/// A buffer made from a literal, and one that grows after it was made: the
/// second had room for four bytes only, so it moved to storage for nine.
pub fn string_type() -> (made: (TextBuffer, TextBuffer))
    ensures
        made.0.wf(),
        made.0@ == "Hello"@,
        made.0.spec_len() == 5,
        made.0.spec_capacity() == 5,
        made.1.wf(),
        made.1@ == "Heya, boy"@,
        made.1.spec_len() == 9,
        made.1.spec_capacity() == 9,
{
    let stringy = TextBuffer::from("Hello");
    let mut stringy_mut = TextBuffer::from("Heya");
    stringy_mut.push_str(", boy");
    proof {
        lemma_literal_lengths();
    }
    (stringy, stringy_mut)
}

/// An integer is copied on assignment, so both bindings stay usable; a buffer
/// is moved, so only the binding it was moved to does. Hands back the two
/// integers and the buffer under its last owner.
pub fn move_problem() -> (kept: (i32, i32, TextBuffer))
    ensures
        kept.0 == 5,
        kept.1 == 5,
        kept.2.wf(),
        kept.2@ == "hello"@,
        kept.2.spec_len() == 5,
        kept.2.spec_capacity() == 5,
{
    let x: i32 = 5;
    let y: i32 = x;
    let s1 = TextBuffer::from("hello");
    let s2 = s1;
    proof {
        lemma_literal_lengths();
    }
    (x, y, s2)
}

/// A buffer and its duplicate: two owners of two storages with one text.
pub fn clone_wars() -> (both: (TextBuffer, TextBuffer))
    ensures
        both.0.wf(),
        both.0@ == "hello"@,
        both.0.spec_len() == 5,
        both.0.spec_capacity() == 5,
        both.1.wf(),
        both.1@ == "hello"@,
        both.1.spec_len() == 5,
        both.1.spec_capacity() == 5,
{
    let s1 = TextBuffer::from("hello");
    let s2 = s1.clone();
    proof {
        lemma_literal_lengths();
    }
    (s1, s2)
}

/// Takes a buffer for good and reads its text. The buffer goes out of scope
/// at the end, where its storage is given back. Hands back the text that it
/// read.
pub fn takes_ownership(some_string: TextBuffer) -> (shown: String)
    ensures
        shown@ == some_string@,
{
    some_string.as_str().to_owned()
}

/// Takes a copy of an integer and hands back what it read; the caller's own
/// binding is none the poorer.
pub fn makes_copy(some_integer: i32) -> (shown: i32)
    ensures
        shown == some_integer,
{
    some_integer
}

/// A buffer that is passed by value is gone from the caller; an integer that
/// is passed by value is still there. Hands back what the two callees read,
/// and the integer that the caller still holds.
pub fn fn_ownership() -> (seen: (String, i32, i32))
    ensures
        seen.0@ == "hello"@,
        seen.1 == 5,
        seen.2 == 5,
{
    let s = TextBuffer::from("hello");
    let shown_text = takes_ownership(s);
    let x: i32 = 5;
    let shown_number = makes_copy(x);
    (shown_text, shown_number, x)
}

/// Makes a buffer and moves it out to the caller.
pub fn gives_ownership_string() -> (some_string: TextBuffer)
    ensures
        some_string.wf(),
        some_string@ == "hello"@,
        some_string.spec_len() == 5,
        some_string.spec_capacity() == 5,
{
    let some_string = TextBuffer::from("hello");
    proof {
        lemma_literal_lengths();
    }
    some_string
}

/// Moves a buffer that was passed in straight back out to the caller.
pub fn takes_and_gives_back(a_string: TextBuffer) -> (given_back: TextBuffer)
    ensures
        given_back == a_string,
{
    a_string
}

/// Ownership comes in through a return value, and goes in and out again
/// through a call. The two buffers that are still owned at the end are handed
/// back: the one that was given, and the one that made the round trip.
pub fn return_values_ownership() -> (owned: (TextBuffer, TextBuffer))
    ensures
        owned.0.wf(),
        owned.0@ == "hello"@,
        owned.0.spec_len() == 5,
        owned.0.spec_capacity() == 5,
        owned.1.wf(),
        owned.1@ == "hello"@,
        owned.1.spec_len() == 5,
        owned.1.spec_capacity() == 5,
{
    let s1 = gives_ownership_string();
    let s2 = TextBuffer::from("hello");
    let s3 = takes_and_gives_back(s2);
    proof {
        lemma_literal_lengths();
    }
    (s1, s3)
}

} // verus!
