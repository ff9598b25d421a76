//! Assembling the payload and its offered content-type labels.
//!
//! The payload itself is bytes in a file; reading standard input and writing
//! the file is the embedding program's work. What is decided here: how
//! argument words join into one payload, which content-type label the copy
//! runs under, which further labels a text-like payload is offered as, and
//! whether a trailing newline is trimmed.

use vstd::prelude::*;

verus! {

/// The label a copy runs under when the caller names none.
pub open spec fn default_mime_type() -> Seq<char> {
    "application/octet-stream"@
}

/// A text-like content-type label: one of the bare text atoms, or anything
/// under `text/`.
pub open spec fn is_text_spec(m: Seq<char>) -> bool {
    ||| m == "TEXT"@
    ||| m == "STRING"@
    ||| m == "UTF8_STRING"@
    ||| m.len() >= 5 && m.subrange(0, 5) == "text/"@
}

/// Argument words joined by single spaces, in order.
pub open spec fn spec_joined(args: Seq<Seq<u8>>) -> Seq<u8>
    decreases args.len(),
{
    if args.len() == 0 {
        Seq::<u8>::empty()
    } else if args.len() == 1 {
        args[0]
    } else {
        spec_joined(args.drop_last()) + seq![32u8] + args.last()
    }
}

/// Whether `mime` is a text-like label.
pub fn is_text(mime: &String) -> (r: bool)
    ensures
        r == is_text_spec(mime@),
{
    if *mime == "TEXT".to_owned() || *mime == "STRING".to_owned() || *mime
        == "UTF8_STRING".to_owned() {
        return true;
    }
    let s = mime.as_str();
    let n = s.unicode_len();
    if n < 5 {
        proof {
            reveal_strlit("text/");
            assert(!(mime@.len() >= 5 && mime@.subrange(0, 5) == "text/"@));
        }
        return false;
    }
    let prefix_matches = s.get_char(0) == 't' && s.get_char(1) == 'e' && s.get_char(2) == 'x'
        && s.get_char(3) == 't' && s.get_char(4) == '/';
    proof {
        reveal_strlit("text/");
        if prefix_matches {
            assert(mime@.subrange(0, 5) =~= "text/"@);
        } else {
            assert(mime@.subrange(0, 5) != "text/"@) by {
                if mime@.subrange(0, 5) == "text/"@ {
                    assert(mime@[0] == "text/"@[0]);
                    assert(mime@[1] == "text/"@[1]);
                    assert(mime@[2] == "text/"@[2]);
                    assert(mime@[3] == "text/"@[3]);
                    assert(mime@[4] == "text/"@[4]);
                }
            }
        }
    }
    prefix_matches
}

/// The label the copy runs under: the caller's, or the default binary one.
pub fn effective_mime_type(given: Option<String>) -> (r: String)
    ensures
        given matches Some(m) ==> r == m,
        given is None ==> r@ == default_mime_type(),
{
    match given {
        Some(m) => m,
        None => "application/octet-stream".to_owned(),
    }
}

/// The full list of labels the source offers, richest first.
///
/// A text-like label is offered alongside the common text labels, with the
/// richest first, because requesters pick the first mutually acceptable
/// label; the caller's own label comes last. Any other label is offered
/// alone.
pub fn offered_labels(mime: String) -> (r: Vec<String>)
    ensures
        is_text_spec(mime@) ==> {
            &&& r@.len() == 6
            &&& r@[0]@ == "text/plain;charset=utf-8"@
            &&& r@[1]@ == "text/plain"@
            &&& r@[2]@ == "STRING"@
            &&& r@[3]@ == "UTF8_STRING"@
            &&& r@[4]@ == "TEXT"@
            &&& r@[5] == mime
        },
        !is_text_spec(mime@) ==> r@.len() == 1 && r@[0] == mime,
{
    let mut r: Vec<String> = Vec::new();
    if is_text(&mime) {
        r.push("text/plain;charset=utf-8".to_owned());
        r.push("text/plain".to_owned());
        r.push("STRING".to_owned());
        r.push("UTF8_STRING".to_owned());
        r.push("TEXT".to_owned());
    }
    r.push(mime);
    r
}

/// Join the caller's argument words, each given as its bytes, into one
/// payload: the words in order, a single space between neighbours.
pub fn join_args(args: &Vec<Vec<u8>>) -> (r: Vec<u8>)
    ensures
        r@ == spec_joined(args.deep_view()),
{
    let mut r: Vec<u8> = Vec::new();
    let mut i: usize = 0;
    while i < args.len()
        invariant
            i <= args.len(),
            r@ == spec_joined(args.deep_view().take(i as int)),
        decreases args.len() - i,
    {
        if i > 0 {
            r.push(32);
        }
        let word = &args[i];
        let mut j: usize = 0;
        while j < word.len()
            invariant
                j <= word.len(),
                i < args.len(),
                word == args[i as int],
                i > 0 ==> r@ == spec_joined(args.deep_view().take(i as int)) + seq![32u8]
                    + word@.take(j as int),
            i == 0 ==> r@ == word@.take(j as int),
            decreases word.len() - j,
        {
            r.push(word[j]);
            proof {
                assert(word@.take(j + 1) =~= word@.take(j as int).push(word@[j as int]));
            }
            j += 1;
        }
        proof {
            let pre = args.deep_view().take(i as int);
            let post = args.deep_view().take(i + 1);
            assert(word@.take(word@.len() as int) =~= word@);
            assert(post.drop_last() =~= pre);
            assert(post.last() == args.deep_view()[i as int]);
            assert(args.deep_view()[i as int] == word@);
            if i == 0 {
                assert(post.len() == 1);
                assert(post[0] == word@);
                assert(spec_joined(post) == word@);
                assert(r@ == word@);
            } else {
                assert(post.len() >= 2);
                assert(spec_joined(post) == spec_joined(pre) + seq![32u8] + word@);
            }
        }
        i += 1;
    }
    proof {
        assert(args.deep_view().take(args@.len() as int) =~= args.deep_view());
    }
    r
}

/// Whether the trailing byte of the payload is trimmed before copying:
/// only when the caller asked for it, only under a text-like label, and only
/// when the payload in fact ends in a newline.
pub fn should_trim_newline(trim_requested: bool, mime: &String, last_byte: Option<u8>) -> (r:
    bool)
    ensures
        r == (trim_requested && is_text_spec(mime@) && last_byte == Some(10u8)),
{
    trim_requested && is_text(mime) && match last_byte {
        Some(b) => b == 10,
        None => false,
    }
}

} // verus!
