use vstd::prelude::*;

verus! {

/// Relies on SystemTime::now and SystemTime::duration_since(UNIX_EPOCH): the
/// whole seconds and the nanoseconds past them since the Unix epoch, or
/// `None` while the clock reads earlier. Duration::subsec_nanos is always
/// below one billion.
#[verifier::external_body]
fn time_since_epoch() -> (r: Option<(u64, u32)>)
    ensures
        r matches Some((_, nanos)) ==> nanos < 1_000_000_000,
{
    match std::time::SystemTime::now().duration_since(std::time::UNIX_EPOCH) {
        Ok(d) => Some((d.as_secs(), d.subsec_nanos())),
        Err(_) => None,
    }
}

/// Relies on chrono's DateTime::<Utc>::from_timestamp and
/// DateTime::timestamp_millis: the milliseconds since the Unix epoch of the
/// instant `secs` seconds and `nanos` nanoseconds after it, or `None` when
/// the instant is outside chrono's range of dates.
#[verifier::external_body]
fn timestamp_millis_of(secs: i64, nanos: u32) -> (r: Option<i64>)
    requires
        nanos < 1_000_000_000,
    ensures
        r matches Some(m) ==> m == secs * 1000 + nanos / 1_000_000,
{
    chrono::DateTime::<chrono::Utc>::from_timestamp(secs, nanos).map(|t| t.timestamp_millis())
}

/// The current time in milliseconds since the Unix epoch; `None` when the
/// clock reads before the epoch or past the dates chrono can represent.
pub fn now_millis() -> (r: Option<i64>) {
    match time_since_epoch() {
        Some((secs, nanos)) => {
            if secs <= i64::MAX as u64 {
                timestamp_millis_of(secs as i64, nanos)
            } else {
                None
            }
        },
        None => None,
    }
}

/// The symbol a blinking caret shows at a given time: `on` in the first
/// half of each second, `off` in the second.
pub fn cursor_symbol_at(millis: u64, on_symbol: char, off_symbol: char) -> (r: char)
    ensures
        r == if millis % 1000 < 500 { on_symbol } else { off_symbol },
{
    if millis % 1000 < 500 {
        on_symbol
    } else {
        off_symbol
    }
}

/// The symbol a blinking caret shows now; when the time cannot be read, or
/// reads before the epoch, the caret shows as at the epoch.
pub fn get_blinking_cursor(on_symbol: char, off_symbol: char) -> (r: char)
    ensures
        r == on_symbol || r == off_symbol,
{
    let millis: u64 = match now_millis() {
        Some(now) => if now < 0 { 0 } else { now as u64 },
        None => 0,
    };
    cursor_symbol_at(millis, on_symbol, off_symbol)
}

} // verus!
