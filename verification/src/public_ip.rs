//! Finding the public address in what web services answer.

use crate::error::{AppError, AppResult};
use crate::text::{lines, strip_prefix, trim};
use vstd::prelude::*;

verus! {

/// The address in a line of the trace; `None` where the line gives none.
pub open spec fn trace_line(row: Seq<char>) -> Option<Seq<char>> {
    if "ip="@.is_prefix_of(row) {
        let value = crate::text::trimmed(row.skip("ip="@.len() as int));
        if value.len() > 0 {
            Some(value)
        } else {
            None
        }
    } else {
        None
    }
}

/// The address in the first line that gives one.
pub open spec fn trace_address(rows: Seq<Seq<char>>) -> Option<Seq<char>>
    decreases rows.len(),
{
    if rows.len() == 0 {
        None
    } else {
        match trace_line(rows[0]) {
            Some(ip) => Some(ip),
            None => trace_address(rows.skip(1)),
        }
    }
}

/// The address in a trace of `key=value` lines: the first value of the key `ip` that is not blank.
pub fn parse_cf_trace(body: &str) -> (r: Option<String>)
    ensures
        crate::config::profile::opt_view(r) == trace_address(crate::text::lines_of(body@)),
{
    let rows = lines(body);
    let ghost rv = crate::text::slices(rows@);
    let mut i: usize = 0;
    assert(rv.skip(0) =~= rv);
    while i < rows.len()
        invariant
            i <= rows@.len(),
            rv == crate::text::slices(rows@),
            rv == crate::text::lines_of(body@),
            trace_address(rv.skip(i as int)) == trace_address(rv),
        decreases rows@.len() - i,
    {
        proof {
            assert(rv.skip(i as int)[0] == rows@[i as int]@);
            assert(rv.skip(i as int).skip(1) =~= rv.skip(i + 1));
        }
        if let Some(rest) = strip_prefix(rows[i], "ip=") {
            let value = trim(rest);
            if !value.is_empty() {
                return Some(value.to_owned());
            }
        }
        i += 1;
    }
    None
}

/// The address in the answer of the first service, which is a trace; `None` asks for the fallback
/// service.
pub fn from_trace(answer: Result<String, String>) -> (r: Option<String>)
    ensures
        crate::config::profile::opt_view(r) == match answer {
            Ok(body) => trace_address(crate::text::lines_of(body@)),
            Err(_) => None,
        },
{
    match answer {
        Ok(body) => parse_cf_trace(body.as_str()),
        Err(_) => None,
    }
}

/// The address in the answer of the fallback service, or why there is none.
pub open spec fn fallback_address(answer: Result<Seq<char>, Seq<char>>) -> Result<
    Seq<char>,
    Seq<char>,
> {
    match answer {
        Ok(body) => {
            let ip = crate::text::trimmed(body);
            if ip.len() > 0 {
                Ok(ip)
            } else {
                Err("ipify returned an empty body"@)
            }
        },
        Err(e) => Err(e),
    }
}

/// The address in the answer of the fallback service, which is the bare address.
pub fn parse_ipify(answer: Result<String, String>) -> (r: AppResult<String>)
    ensures
        ({
            let a = fallback_address(crate::helper::steps::text_or_error(answer));
            match r {
                Ok(ip) => a == Ok::<_, Seq<char>>(ip@),
                Err(AppError::PublicIpFetchFailed(t)) => a == Err::<Seq<char>, _>(t@),
                Err(_) => false,
            }
        }),
{
    match answer {
        Ok(body) => {
            let ip = trim(body.as_str());
            if ip.is_empty() {
                return Err(
                    AppError::PublicIpFetchFailed("ipify returned an empty body".to_owned()),
                );
            }
            Ok(ip.to_owned())
        },
        Err(e) => Err(AppError::PublicIpFetchFailed(e)),
    }
}

// ── laws ────────────────────────────────────────────────────────────────────

/// The address in a trace is the value of the first line `ip=` that has one, whatever stands
/// before and behind it, without white space around it.
pub proof fn law_the_trace_gives_the_address(
    before: Seq<Seq<char>>,
    value: Seq<char>,
    behind: Seq<Seq<char>>,
)
    requires
        crate::text::trimmed(value).len() > 0,
        forall|j: int| 0 <= j < before.len() ==> !"ip="@.is_prefix_of(#[trigger] before[j]),
    ensures
        trace_address(before + seq!["ip="@ + value] + behind) == Some(crate::text::trimmed(value)),
        trace_address(before) is None,
    decreases before.len(),
{
    let all = before + seq!["ip="@ + value] + behind;
    if before.len() > 0 {
        let rest = before.skip(1);
        assert(!"ip="@.is_prefix_of(before[0]));
        assert forall|j: int| 0 <= j < rest.len() implies !"ip="@.is_prefix_of(
            #[trigger] rest[j],
        ) by {
            assert(rest[j] == before[j + 1]);
        }
        law_the_trace_gives_the_address(rest, value, behind);
        assert(all.skip(1) =~= rest + seq!["ip="@ + value] + behind);
        assert(all[0] == before[0]);
    } else {
        let row = "ip="@ + value;
        assert(all[0] == row);
        assert("ip="@ =~= row.take("ip="@.len() as int));
        assert("ip="@.is_prefix_of(row));
        assert(row.skip("ip="@.len() as int) =~= value);
    }
}

/// The first service is asked for a trace; where it fails there is no address from it. The second
/// one answers with the address alone; a blank answer is no address, and a failure is passed on.
pub proof fn law_answers_give_addresses(
    body: String,
    error: String,
    one: Option<String>,
    two: AppResult<String>,
    three: AppResult<String>,
)
    requires
        call_ensures(from_trace, (Err::<String, String>(error),), one),
        call_ensures(parse_ipify, (Ok::<String, String>(body),), two),
        call_ensures(parse_ipify, (Err::<String, String>(error),), three),
    ensures
        one is None,
        two is Ok <==> crate::text::trimmed(body@).len() > 0,
        two is Ok ==> two->Ok_0@ == crate::text::trimmed(body@),
        two is Err ==> two->Err_0 is PublicIpFetchFailed && two->Err_0->PublicIpFetchFailed_0@
            == "ipify returned an empty body"@,
        three is Err && three->Err_0 is PublicIpFetchFailed
            && three->Err_0->PublicIpFetchFailed_0@ == error@,
{
    assert(crate::config::profile::opt_view(one) is None);
}

} // verus!
