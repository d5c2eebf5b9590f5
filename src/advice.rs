use vstd::prelude::*;
use vstd::string::StringExecFns;
use crate::ledger::{entry_of, ledger_set};
use crate::security::SecurityStats;
use crate::text::{decimal_text, decimal_of};

verus! {

/// Context attached to an error when it is logged.
pub struct ErrorContext {
    pub context: String,
    pub metadata: Vec<(String, String)>,
}

impl ErrorContext {
    pub fn new(context: &str) -> (r: Self)
        ensures
            r.context@ == context@,
            r.metadata@.len() == 0,
    {
        ErrorContext { context: String::from_str(context), metadata: Vec::new() }
    }

    /// The context with `key` set to `value`, replacing an earlier value.
    pub fn with_metadata(self, key: &str, value: &str) -> (r: Self)
        ensures
            r.context@ == self.context@,
            entry_of(r.metadata@, key@) matches Some(v) && v@ == value@,
            forall|k: Seq<char>| k != key@ ==> entry_of(r.metadata@, k) == entry_of(self.metadata@, k),
    {
        let mut metadata = self.metadata;
        let k = String::from_str(key);
        ledger_set(&mut metadata, &k, String::from_str(value));
        ErrorContext { context: self.context, metadata }
    }
}

/// Load figures the performance advice is drawn from.
pub struct PerformanceSummary {
    pub active_connections: usize,
    pub active_tasks: usize,
    pub memory_usage_bytes: usize,
}

pub open spec fn performance_advice(s: PerformanceSummary) -> Seq<Seq<char>> {
    let a = if s.active_connections > 40 {
        seq!["High connection count detected. Consider implementing connection pooling."@]
    } else {
        Seq::empty()
    };
    let b = if s.active_tasks > 15 {
        seq!["High task count detected. Consider task queuing or rate limiting."@]
    } else {
        Seq::empty()
    };
    let c = if s.memory_usage_bytes / 1048576 > 400 {
        seq!["High memory usage detected. Consider implementing memory cleanup."@]
    } else {
        Seq::empty()
    };
    let all = a + b + c;
    if all.len() == 0 { seq!["System performance is optimal."@] } else { all }
}

pub open spec fn texts_of(v: Seq<String>) -> Seq<Seq<char>> {
    v.map_values(|x: String| x@)
}

fn push_text(v: &mut Vec<String>, t: &str)
    ensures
        texts_of(final(v)@) == texts_of(old(v)@).push(t@),
{
    v.push(String::from_str(t));
    assert(texts_of(v@) =~= texts_of(old(v)@).push(t@));
}

/// Advice on the gateway's load; a line for each figure over its threshold,
/// or a single all-clear line.
pub fn generate_performance_recommendations(summary: &PerformanceSummary) -> (r: Vec<String>)
    ensures
        texts_of(r@) == performance_advice(*summary),
{
    let mut out: Vec<String> = Vec::new();
    assert(texts_of(out@) =~= Seq::empty());
    if summary.active_connections > 40 {
        push_text(&mut out, "High connection count detected. Consider implementing connection pooling.");
    }
    if summary.active_tasks > 15 {
        push_text(&mut out, "High task count detected. Consider task queuing or rate limiting.");
    }
    if summary.memory_usage_bytes / 1048576 > 400 {
        push_text(&mut out, "High memory usage detected. Consider implementing memory cleanup.");
    }
    assert(texts_of(out@) =~= performance_advice(*summary) || out@.len() == 0);
    if out.len() == 0 {
        push_text(&mut out, "System performance is optimal.");
    }
    assert(texts_of(out@) =~= performance_advice(*summary));
    out
}

pub open spec fn security_advice(s: SecurityStats) -> Seq<Seq<char>> {
    let a = if s.critical_events_last_day > 0 {
        seq!["Critical security events detected in the last 24 hours. Review security logs immediately."@]
    } else {
        Seq::empty()
    };
    let b = if s.locked_accounts > 0 {
        seq![decimal_of(s.locked_accounts as nat) + " accounts are currently locked due to failed login attempts."@]
    } else {
        Seq::empty()
    };
    let c = if s.active_rate_limits > 10 {
        seq!["High number of rate-limited IPs detected. Consider reviewing access patterns."@]
    } else {
        Seq::empty()
    };
    let d = if s.active_connections > 50 {
        seq!["High number of active connections. Monitor for potential DDoS activity."@]
    } else {
        Seq::empty()
    };
    let e = if s.events_last_hour > 100 {
        seq!["High security event volume in the last hour. Review for suspicious activity."@]
    } else {
        Seq::empty()
    };
    let all = a + b + c + d + e;
    if all.len() == 0 { seq!["Security status is normal. No immediate action required."@] } else { all }
}

/// Advice drawn from the security gate's counters; a line for each
/// concern, or a single all-clear line.
pub fn generate_security_recommendations(stats: &SecurityStats) -> (r: Vec<String>)
    ensures
        texts_of(r@) == security_advice(*stats),
{
    let mut out: Vec<String> = Vec::new();
    assert(texts_of(out@) =~= Seq::empty());
    if stats.critical_events_last_day > 0 {
        push_text(&mut out, "Critical security events detected in the last 24 hours. Review security logs immediately.");
    }
    if stats.locked_accounts > 0 {
        let mut line = decimal_text(stats.locked_accounts as u64);
        line.append(" accounts are currently locked due to failed login attempts.");
        let ghost prev = out@;
        let ghost l = line@;
        out.push(line);
        assert(texts_of(out@) =~= texts_of(prev).push(l));
    }
    if stats.active_rate_limits > 10 {
        push_text(&mut out, "High number of rate-limited IPs detected. Consider reviewing access patterns.");
    }
    if stats.active_connections > 50 {
        push_text(&mut out, "High number of active connections. Monitor for potential DDoS activity.");
    }
    if stats.events_last_hour > 100 {
        push_text(&mut out, "High security event volume in the last hour. Review for suspicious activity.");
    }
    assert(texts_of(out@) =~= security_advice(*stats) || out@.len() == 0);
    if out.len() == 0 {
        push_text(&mut out, "Security status is normal. No immediate action required.");
    }
    assert(texts_of(out@) =~= security_advice(*stats));
    out
}


#[derive(Debug, Clone, Copy, PartialEq, Eq, Structural)]
pub struct MobileOptimizations {
    pub reduce_animations: bool,
    pub optimize_scrolling: bool,
    pub increase_touch_targets: bool,
    pub reduce_network_usage: bool,
    pub battery_optimization: bool,
}

/// What the advice for a mobile client reads of its device; `high_dpi`
/// tells whether its pixel ratio is above 2.
pub struct MobileDeviceTraits {
    pub platform: String,
    pub screen_width: u32,
    pub screen_height: u32,
    pub is_tablet: bool,
    pub high_dpi: bool,
    pub supports_touch: bool,
}

pub struct MobileSessionResponse {
    pub success: bool,
    pub session_id: Option<String>,
    pub applied_optimizations: MobileOptimizations,
    pub recommendations: Vec<String>,
    pub error: Option<String>,
}

pub open spec fn is_mobile_platform(p: Seq<char>) -> bool {
    p == "ios"@ || p == "android"@
}

/// The optimizations applied for a device: the requested ones, plus touch
/// targets for narrow or touch screens, scrolling for tablets, battery and
/// network savings on phones' platforms, fewer animations on small screens.
pub open spec fn mobile_optimizations(d: MobileDeviceTraits, o: MobileOptimizations) -> MobileOptimizations {
    let small = d.screen_width < 480 || d.screen_height < 800;
    MobileOptimizations {
        reduce_animations: o.reduce_animations || small,
        optimize_scrolling: o.optimize_scrolling || d.is_tablet,
        increase_touch_targets: o.increase_touch_targets || d.screen_width < 768 || d.supports_touch,
        reduce_network_usage: o.reduce_network_usage || is_mobile_platform(d.platform@),
        battery_optimization: o.battery_optimization || is_mobile_platform(d.platform@),
    }
}

pub open spec fn mobile_advice(d: MobileDeviceTraits) -> Seq<Seq<char>> {
    let a = if d.screen_width < 768 { seq!["Consider using compact terminal layout for small screens"@] } else { Seq::empty() };
    let b = if d.is_tablet { seq!["Tablet detected: enabling split-screen optimizations"@] } else { Seq::empty() };
    let c = if is_mobile_platform(d.platform@) { seq!["Mobile platform detected: enabling battery optimizations"@] } else { Seq::empty() };
    let e = if d.high_dpi { seq!["High DPI display detected: optimizing for crisp text rendering"@] } else { Seq::empty() };
    let f = if !d.supports_touch {
        seq!["Non-touch device: optimizing for keyboard navigation"@]
    } else {
        seq!["Touch device: enabling gesture controls"@]
    };
    let g = if d.screen_width < 480 || d.screen_height < 800 {
        seq!["Small screen detected: reducing animations for better performance"@]
    } else {
        Seq::empty()
    };
    a + b + c + e + f + g
}

fn text_is(s: &String, lit: &str) -> (r: bool)
    ensures
        r == (s@ == lit@),
{
    let t = String::from_str(lit);
    *s == t
}

/// Tunes a mobile session to its device: the optimizations to apply and
/// the advice for the client.
pub fn mobile_session(session_id: Option<String>, device: &MobileDeviceTraits, requested: MobileOptimizations) -> (r: MobileSessionResponse)
    ensures
        r.success,
        r.session_id == session_id,
        r.error is None,
        r.applied_optimizations == mobile_optimizations(*device, requested),
        texts_of(r.recommendations@) == mobile_advice(*device),
{
    let mut applied = requested;
    let mut out: Vec<String> = Vec::new();
    assert(texts_of(out@) =~= Seq::empty());
    if device.screen_width < 768 {
        push_text(&mut out, "Consider using compact terminal layout for small screens");
        applied.increase_touch_targets = true;
    }
    if device.is_tablet {
        push_text(&mut out, "Tablet detected: enabling split-screen optimizations");
        applied.optimize_scrolling = true;
    }
    if text_is(&device.platform, "ios") || text_is(&device.platform, "android") {
        push_text(&mut out, "Mobile platform detected: enabling battery optimizations");
        applied.battery_optimization = true;
        applied.reduce_network_usage = true;
    }
    if device.high_dpi {
        push_text(&mut out, "High DPI display detected: optimizing for crisp text rendering");
    }
    if !device.supports_touch {
        push_text(&mut out, "Non-touch device: optimizing for keyboard navigation");
    } else {
        push_text(&mut out, "Touch device: enabling gesture controls");
        applied.increase_touch_targets = true;
    }
    if device.screen_width < 480 || device.screen_height < 800 {
        applied.reduce_animations = true;
        push_text(&mut out, "Small screen detected: reducing animations for better performance");
    }
    assert(texts_of(out@) =~= mobile_advice(*device));
    MobileSessionResponse { success: true, session_id, applied_optimizations: applied, recommendations: out, error: None }
}

} // verus!
