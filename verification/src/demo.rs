//! The demo hosts' context, out of their environment.

use vstd::prelude::*;

use crate::context::{
    CtxSettings, Duration, IceConfigView, WebrtcCtx, DEFAULT_CONNECT_TIMEOUT_SECS,
};
use crate::host::EngineHook;
use crate::text::{
    decimal, lemma_decimal_digits, number_value, numbers_round_trip, parse_number, quote, quoted,
    text,
};

verus! {

/// Why a value of the variable is refused.
pub open spec fn bad_bound(value: Seq<char>) -> Seq<char> {
    "invalid WEBRTC_MAX_INBOUND_BUFFER_BYTES "@ + quoted(value)
        + ": expected a positive byte count"@
}

/// The override that a value of the variable stands for: none where it is unset
/// or empty, the byte count for a positive integer, and a refusal otherwise.
pub open spec fn bound_override(value: Option<Seq<char>>) -> Result<Option<nat>, Seq<char>> {
    match value {
        None => Ok(None),
        Some(v) => if v.len() == 0 {
            Ok(None)
        } else {
            match number_value(v, usize::MAX as nat) {
                Ok(bytes) => if bytes > 0 {
                    Ok(Some(bytes))
                } else {
                    Err(bad_bound(v))
                },
                Err(_) => Err(bad_bound(v)),
            }
        },
    }
}

/// The override of the inbound buffer bound. A typo that silently restored the
/// default bound would invalidate exactly the test that set it, so a malformed
/// value is refused.
pub fn max_inbound_buffer_bytes_from_env(value: Option<&str>) -> (r: Result<Option<usize>, String>)
    ensures
        bound_override(
            match value {
                Some(v) => Some(v@),
                None => None,
            },
        ) == (match r {
            Ok(Some(bytes)) => Ok(Some(bytes as nat)),
            Ok(None) => Ok(None),
            Err(why) => Err(why@),
        }),
{
    let value: &str = match value {
        Some(value) => value,
        None => {
            return Ok(None);
        },
    };
    if value.is_empty() {
        return Ok(None);
    }
    if let Ok(bytes) = parse_number(value, usize::MAX as u64) {
        if bytes > 0 {
            return Ok(Some(bytes as usize));
        }
    }
    let mut why: String = text("invalid WEBRTC_MAX_INBOUND_BUFFER_BYTES ");
    why.append(quote(value).as_str());
    why.append(": expected a positive byte count");
    Err(why)
}

/// The demo hosts' context: `include_loopback` opts into loopback ICE
/// candidates, and `bound` is the value of the variable that overrides the
/// inbound buffer bound, which is `default_bound` without it.
pub fn webrtc_ctx(include_loopback: bool, bound: Option<&str>, default_bound: usize) -> (r: Result<
    WebrtcCtx<EngineHook>,
    String,
>)
    ensures
        match (
            r,
            bound_override(
                match bound {
                    Some(v) => Some(v@),
                    None => None,
                },
            ),
        ) {
            (Ok(ctx), Ok(bytes)) => ctx@ == (CtxSettings::<EngineHook> {
                setting_engine_hook: if include_loopback {
                    Some(EngineHook::IncludeLoopback)
                } else {
                    None
                },
                ice_config: IceConfigView::default_view(),
                connect_timeout: Duration { secs: DEFAULT_CONNECT_TIMEOUT_SECS, nanos: 0 },
                max_inbound_buffer_bytes: match bytes {
                    Some(bytes) => bytes as usize,
                    None => default_bound,
                },
            }),
            (Err(why), Err(expected)) => why@ == expected,
            _ => false,
        },
{
    let mut ctx: WebrtcCtx<EngineHook> = WebrtcCtx::new(default_bound);
    if include_loopback {
        ctx.set_setting_engine_hook(EngineHook::IncludeLoopback);
    }
    match max_inbound_buffer_bytes_from_env(bound) {
        Ok(Some(bytes)) => {
            ctx.set_max_inbound_buffer_bytes(bytes);
        },
        Ok(None) => {},
        Err(why) => {
            return Err(why);
        },
    }
    Ok(ctx)
}

/// The bound is overridden by any positive number, and by nothing else: no value, or an
/// empty one, leaves it, and every other value is refused by name.
pub proof fn bounds_are_positive_numbers(n: nat, value: Seq<char>)
    requires
        n <= usize::MAX,
    ensures
        n > 0 ==> bound_override(Some(decimal(n))) == Ok::<Option<nat>, Seq<char>>(Some(n)),
        bound_override(None) == Ok::<Option<nat>, Seq<char>>(None),
        value.len() == 0 ==> bound_override(Some(value)) == Ok::<Option<nat>, Seq<char>>(None),
        value.len() > 0 ==> match number_value(value, usize::MAX as nat) {
            Ok(bytes) => if bytes > 0 {
                bound_override(Some(value)) == Ok::<Option<nat>, Seq<char>>(Some(bytes))
            } else {
                bound_override(Some(value)) is Err
            },
            Err(_) => bound_override(Some(value)) is Err,
        },
        bound_override(Some(decimal(0))) is Err,
        bound_override(Some(value)) matches Err(why) ==> why
            == "invalid WEBRTC_MAX_INBOUND_BUFFER_BYTES "@ + quoted(value)
            + ": expected a positive byte count"@,
{
    lemma_decimal_digits(n);
    lemma_decimal_digits(0);
    numbers_round_trip(n, usize::MAX as nat);
    numbers_round_trip(0, usize::MAX as nat);
}

} // verus!
