//! Properties of the parsers and of the result mapping, stated over the
//! specifications that the executable functions meet.

use vstd::prelude::*;
use crate::client::{lowercase_of, status_of_line, status_of_lowered, value_after_colon};
use crate::command::{connect_matches, disconnect_matches, output_matches, CommandOutcome};
use crate::error::{WarpError, WarpResult};
use crate::text::{
    contains, first_occurrence, is_first_occurrence, is_white, lemma_first_occurrence, occurs_at,
    second_piece, starts_with, trim, trim_end, trim_start,
};
use crate::types::WarpStatus;

verus! {

/// The word that names a known connection state in status lines.
pub open spec fn state_word(s: WarpStatus) -> Seq<char> {
    match s {
        WarpStatus::Connected => "connected"@,
        WarpStatus::Disconnected => "disconnected"@,
        WarpStatus::Connecting => "connecting"@,
        WarpStatus::Disconnecting => "disconnecting"@,
        WarpStatus::Unknown => Seq::empty(),
    }
}

proof fn lemma_state_words(s: WarpStatus)
    requires
        s != WarpStatus::Unknown,
    ensures
        state_word(s).len() >= 9,
        !is_white(state_word(s)[0]),
        !is_white(state_word(s).last()),
        forall|k: int| 0 <= k < state_word(s).len() ==> #[trigger] state_word(s)[k] != ':',
{
    reveal_strlit("connected");
    reveal_strlit("disconnected");
    reveal_strlit("connecting");
    reveal_strlit("disconnecting");
}

/// A single space and then a word without whitespace at its ends trims to the word.
proof fn lemma_trim_spaced(w: Seq<char>)
    requires
        w.len() > 0,
        !is_white(w[0]),
        !is_white(w.last()),
    ensures
        trim(seq![' '] + w) == w,
{
    let s = seq![' '] + w;
    assert(s.drop_first() =~= w);
    assert(trim_start(s) == trim_start(w));
    assert(trim_start(w) == w);
    assert(trim_end(w) == w);
}

/// A status line whose lowercase form is `status update: ` or, in the
/// older format, `status: ` followed by one of the words `connected`,
/// `disconnected`, `connecting` or `disconnecting` reports that state,
/// whatever the case of the letters in the line itself.
pub proof fn law_status_words(line: Seq<char>, s: WarpStatus)
    requires
        s != WarpStatus::Unknown,
    ensures
        lowercase_of(line) == "status update: "@ + state_word(s) ==> status_of_line(line) == s,
        lowercase_of(line) == "status: "@ + state_word(s) ==> status_of_line(line) == s,
{
    lemma_state_words(s);
    let w = state_word(s);
    reveal_strlit("status update: ");
    reveal_strlit("status update:");
    reveal_strlit("status: ");
    reveal_strlit("status:");
    reveal_strlit("connected");
    reveal_strlit("disconnected");
    reveal_strlit("connecting");
    reveal_strlit("disconnecting");
    let t = "status update: "@ + w;
    assert(t.subrange(0, 14) =~= "status update:"@);
    assert(t.skip(14) =~= seq![' '] + w);
    lemma_trim_spaced(w);
    assert(status_of_lowered(t) == s);
    let u = "status: "@ + w;
    assert(!starts_with(u, "status update:"@)) by {
        if u.len() >= 14 {
            assert(u.subrange(0, 14)[6] != "status update:"@[6]);
        }
    }
    assert(is_first_occurrence(u, "status:"@, 0)) by {
        assert(u.subrange(0, 7) =~= "status:"@);
    }
    lemma_first_occurrence(u, "status:"@, 0);
    let rest = u.skip(7);
    assert(rest =~= seq![' '] + w);
    assert(!contains(rest, "status:"@)) by {
        assert forall|i: int| !occurs_at(rest, "status:"@, i) by {
            if occurs_at(rest, "status:"@, i) {
                assert(rest.subrange(i, i + 7)[6] == ':');
                assert(w[i + 5] == ':');
            }
        }
    }
    assert(second_piece(u, "status:"@) == rest);
    let c = "connected"@;
    let d = "disconnected"@;
    let cg = "connecting"@;
    let dg = "disconnecting"@;
    assert(occurs_at(w, w, 0)) by {
        assert(w.subrange(0, w.len() as int) =~= w);
    }
    if s == WarpStatus::Connected {
        assert(!contains(w, d));
    } else if s == WarpStatus::Connecting {
        assert(!contains(w, c)) by {
            assert forall|i: int| !occurs_at(w, c, i) by {
                if occurs_at(w, c, i) {
                    assert(w.subrange(i, i + 9)[7] == c[7]);
                }
            }
        }
        assert(!contains(w, d));
        assert(!contains(w, dg));
    } else if s == WarpStatus::Disconnecting {
        assert(!contains(w, c)) by {
            assert forall|i: int| !occurs_at(w, c, i) by {
                if occurs_at(w, c, i) {
                    assert(w.subrange(i, i + 9)[7] == c[7]);
                }
            }
        }
        assert(!contains(w, d)) by {
            assert forall|i: int| !occurs_at(w, d, i) by {
                if occurs_at(w, d, i) {
                    assert(w.subrange(i, i + 12)[10] == d[10]);
                }
            }
        }
    }
    assert(status_of_lowered(u) == s);
}

/// A status line whose lowercase form begins with `status update:` and
/// goes on, after trimming, with anything but one of the four state words
/// reports `Unknown`; so does a line whose lowercase form neither begins
/// with `status update:` nor holds `status:`.
pub proof fn law_status_unknown(line: Seq<char>)
    ensures
        ({
            let t = lowercase_of(line);
            &&& starts_with(t, "status update:"@)
            &&& forall|s: WarpStatus|
                s != WarpStatus::Unknown ==> trim(t.skip(14)) != #[trigger] state_word(s)
        }) ==> status_of_line(line) == WarpStatus::Unknown,
        !starts_with(lowercase_of(line), "status update:"@) && !contains(
            lowercase_of(line),
            "status:"@,
        ) ==> status_of_line(line) == WarpStatus::Unknown,
{
    reveal_strlit("status update:");
    assert(state_word(WarpStatus::Connected) == "connected"@);
    assert(state_word(WarpStatus::Disconnected) == "disconnected"@);
    assert(state_word(WarpStatus::Connecting) == "connecting"@);
    assert(state_word(WarpStatus::Disconnecting) == "disconnecting"@);
}

proof fn lemma_trim_start_head(s: Seq<char>)
    ensures
        trim_start(s).len() > 0 ==> !is_white(trim_start(s)[0]),
    decreases s.len(),
{
    if s.len() > 0 && is_white(s[0]) {
        lemma_trim_start_head(s.drop_first());
    }
}

proof fn lemma_trim_end_prefix(s: Seq<char>)
    ensures
        trim_end(s).len() <= s.len(),
        trim_end(s) == s.take(trim_end(s).len() as int),
        trim_end(s).len() > 0 ==> !is_white(trim_end(s).last()),
    decreases s.len(),
{
    if s.len() > 0 && is_white(s.last()) {
        lemma_trim_end_prefix(s.drop_last());
        assert(s.drop_last().take(trim_end(s).len() as int) =~= s.take(trim_end(s).len() as int));
    } else {
        assert(s.take(s.len() as int) =~= s);
    }
}

/// What trimming leaves has no whitespace at either end.
pub proof fn lemma_trim_ends(s: Seq<char>)
    ensures
        trim(s).len() > 0 ==> !is_white(trim(s)[0]) && !is_white(trim(s).last()),
{
    lemma_trim_start_head(s);
    lemma_trim_end_prefix(trim_start(s));
}

/// The value after a colon is the trimmed rest of the line after the first
/// colon: it has no whitespace at either end, and there is none where
/// nothing but whitespace follows the colon, or where the line has no colon.
pub proof fn law_value_after_colon(line: Seq<char>)
    ensures
        value_after_colon(line) matches Some(v) ==> {
            &&& v == trim(line.skip(first_occurrence(line, ":"@) + 1))
            &&& v.len() > 0
            &&& !is_white(v[0])
            &&& !is_white(v.last())
        },
        contains(line, ":"@) && trim(line.skip(first_occurrence(line, ":"@) + 1)).len() == 0
            ==> value_after_colon(line) is None,
        !contains(line, ":"@) ==> value_after_colon(line) is None,
{
    lemma_trim_ends(line.skip(first_occurrence(line, ":"@) + 1));
}

/// Connecting through a command that fails succeeds exactly where its
/// error output says the connection exists already; otherwise the failure
/// is reported as `ConnectionFailed` with that output.
pub proof fn law_connect_failure(
    stdout: String,
    stderr: String,
    out: WarpResult<String>,
    r: WarpResult<()>,
)
    requires
        output_matches(CommandOutcome::Exited { success: false, stdout, stderr }, out),
        connect_matches(out, r),
    ensures
        r is Ok <==> contains(stderr@, "already connected"@),
        r is Err ==> r == Err::<(), WarpError>(WarpError::ConnectionFailed(stderr)),
{
}

/// Disconnecting through a command that fails succeeds exactly where its
/// error output says there is no connection already; otherwise the failure
/// is reported as `DisconnectionFailed` with that output.
pub proof fn law_disconnect_failure(
    stdout: String,
    stderr: String,
    out: WarpResult<String>,
    r: WarpResult<()>,
)
    requires
        output_matches(CommandOutcome::Exited { success: false, stdout, stderr }, out),
        disconnect_matches(out, r),
    ensures
        r is Ok <==> contains(stderr@, "already disconnected"@),
        r is Err ==> r == Err::<(), WarpError>(WarpError::DisconnectionFailed(stderr)),
{
}

} // verus!
