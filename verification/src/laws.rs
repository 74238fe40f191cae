use vstd::prelude::*;

use crate::handler::failure_body;
use crate::handler::log_line;
use crate::handler::response_matches;
use crate::handler::Response;
use crate::ident::is_id_rendering;
use crate::ident::is_lower_hex_digit;

verus! {

/// `pat` stands somewhere in `s` as a contiguous run.
pub open spec fn occurs_in(pat: Seq<char>, s: Seq<char>) -> bool {
    exists|i: int|
        0 <= i && i + pat.len() <= s.len() && #[trigger] s.subrange(i, i + pat.len() as int)
            == pat
}

/// A run of `s` never starts with a character that `s` does not hold.
proof fn lemma_no_occurrence_without_first_char(pat: Seq<char>, s: Seq<char>)
    requires
        pat.len() > 0,
        forall|i: int| 0 <= i < s.len() ==> #[trigger] s[i] != pat[0],
    ensures
        !occurs_in(pat, s),
{
    if occurs_in(pat, s) {
        let i = choose|i: int|
            0 <= i && i + pat.len() <= s.len() && #[trigger] s.subrange(i, i + pat.len() as int)
                == pat;
        assert(s.subrange(i, i + pat.len() as int)[0] == s[i]);
        assert(false);
    }
}

/// No character of the failure body is a capital S, the letter both
/// configuration names begin with.
proof fn lemma_failure_body_has_no_capital_s(id: Seq<char>)
    requires
        is_id_rendering(id),
    ensures
        forall|i: int| 0 <= i < failure_body(id).len() ==> #[trigger] failure_body(id)[i] != 'S',
{
    reveal_strlit("Internal server error. Contact IT with log id: ");
    assert forall|i: int| 0 <= i < failure_body(id).len() implies #[trigger] failure_body(id)[i]
        != 'S' by {
        if i < 47 {
            assert(failure_body(id)[i] == ("Internal server error. Contact IT with log id: "@)[i]);
        } else {
            assert(failure_body(id)[i] == id[i - 47]);
            assert(id[i - 47] == '-' || is_lower_hex_digit(id[i - 47]));
        }
    }
}

/// Law: a failure body is the fixed template followed by the 36
/// characters of the hyphenated identifier, and nothing else.
pub proof fn lemma_failure_shape(id: Seq<char>)
    requires
        is_id_rendering(id),
    ensures
        failure_body(id).len() == 47 + 36,
        failure_body(id).subrange(0, 47) == "Internal server error. Contact IT with log id: "@,
        forall|i: int|
            47 <= i < 83 ==> is_lower_hex_digit(#[trigger] failure_body(id)[i]) || failure_body(
                id,
            )[i] == '-',
{
    reveal_strlit("Internal server error. Contact IT with log id: ");
    assert(failure_body(id).subrange(0, 47) =~= "Internal server error. Contact IT with log id: "@);
    assert forall|i: int| 47 <= i < 83 implies is_lower_hex_digit(#[trigger] failure_body(id)[i])
        || failure_body(id)[i] == '-' by {
        assert(failure_body(id)[i] == id[i - 47]);
    }
}

/// Law: the identifier stands verbatim in the log record and, after the
/// fixed template, in the failure body, and the two runs are the same.
pub proof fn lemma_id_correlation(id: Seq<char>)
    ensures
        failure_body(id).len() == 47 + id.len(),
        log_line(id).len() == 8 + id.len(),
        failure_body(id).subrange(47, failure_body(id).len() as int) == id,
        log_line(id).subrange(8, log_line(id).len() as int) == id,
{
    reveal_strlit("Internal server error. Contact IT with log id: ");
    reveal_strlit("Log id: ");
    assert(failure_body(id).subrange(47, failure_body(id).len() as int) =~= id);
    assert(log_line(id).subrange(8, log_line(id).len() as int) =~= id);
}

/// Law: a failure body names neither configuration variable. It is,
/// besides, a function of the identifier alone, so it can carry no part
/// of either configuration value.
pub proof fn lemma_non_disclosure(id: Seq<char>)
    requires
        is_id_rendering(id),
    ensures
        !occurs_in("STAGE"@, failure_body(id)),
        !occurs_in("SECRET_MESSAGE"@, failure_body(id)),
{
    reveal_strlit("STAGE");
    reveal_strlit("SECRET_MESSAGE");
    lemma_failure_body_has_no_capital_s(id);
    assert(("STAGE"@)[0] == 'S');
    assert(("SECRET_MESSAGE"@)[0] == 'S');
    lemma_no_occurrence_without_first_char("STAGE"@, failure_body(id));
    lemma_no_occurrence_without_first_char("SECRET_MESSAGE"@, failure_body(id));
}

/// Law: the envelope is a function of the two configuration values and
/// the request's own identifier alone; no request history enters it.
pub proof fn lemma_stateless(
    stage: Option<Seq<char>>,
    secret_message: Option<Seq<char>>,
    id: Seq<char>,
    r1: Response,
    r2: Response,
)
    requires
        response_matches(stage, secret_message, id, r1),
        response_matches(stage, secret_message, id, r2),
    ensures
        r1 is Success <==> r2 is Success,
        r1.body_view() == r2.body_view(),
{
}

/// Law: a success body does not depend on the correlation identifier,
/// so concurrent successful requests answer with identical bodies.
pub proof fn lemma_success_independent_of_id(
    stage: Seq<char>,
    secret_message: Seq<char>,
    id1: Seq<char>,
    id2: Seq<char>,
    r1: Response,
    r2: Response,
)
    requires
        response_matches(Some(stage), Some(secret_message), id1, r1),
        response_matches(Some(stage), Some(secret_message), id2, r2),
    ensures
        r1 is Success && r2 is Success,
        r1.body_view() == r2.body_view(),
{
}

} // verus!
