//! The search and filter controls of the incident table, the traffic feed
//! and the device inventory.

use vstd::prelude::*;
use crate::laws::{law_alert_filter, law_device_filter_empty, law_traffic_filter_empty};
use crate::model::{Alert, AlertSeverity, AlertStatus, Device, TrafficEvent};
use crate::text::{
    eq_ignore_ascii_case, lowercase_text, opt_view, push_char, push_str, str_contains, str_eq_ignore_ascii_case,
    text_contains, to_lowercase,
};

verus! {

/// The text of an optional field, empty when absent.
pub open spec fn opt_text(o: Option<String>) -> Seq<char> {
    match o {
        Some(s) => s@,
        None => Seq::empty(),
    }
}

/// An alert's addresses, "source destination", lower-cased.
pub open spec fn alert_address_text(a: Alert) -> Seq<char> {
    lowercase_text(a.src_ip@ + seq![' '] + a.dst_ip@)
}

/// Whether an alert passes the incident table's controls; `q` is the
/// lower-cased search text.
pub open spec fn alert_passes(
    a: Alert,
    severity: Option<AlertSeverity>,
    status: Option<AlertStatus>,
    q: Seq<char>,
) -> bool {
    &&& severity matches Some(s) ==> a.severity == s
    &&& status matches Some(s) ==> a.status == s
    &&& q.len() > 0 ==> (text_contains(alert_address_text(a), q) || text_contains(
        lowercase_text(a.title@),
        q,
    ))
}

/// The incident table's controls as a test on alerts.
pub open spec fn alert_filter(
    severity: Option<AlertSeverity>,
    status: Option<AlertStatus>,
    q: Seq<char>,
) -> spec_fn(Alert) -> bool {
    |a: Alert| alert_passes(a, severity, status, q)
}

/// Whether a traffic event passes the traffic feed's controls; `q` is the
/// lower-cased search text.
pub open spec fn traffic_passes(t: TrafficEvent, protocol: Option<Seq<char>>, q: Seq<char>) -> bool {
    &&& protocol matches Some(p) ==> eq_ignore_ascii_case(t.protocol@, p)
    &&& q.len() > 0 ==> (text_contains(lowercase_text(t.src_ip@), q) || text_contains(
        lowercase_text(t.dst_ip@),
        q,
    ))
}

/// The traffic feed's controls as a test on events.
pub open spec fn traffic_filter(protocol: Option<Seq<char>>, q: Seq<char>) -> spec_fn(
    TrafficEvent,
) -> bool {
    |t: TrafficEvent| traffic_passes(t, protocol, q)
}

/// Whether a device matches the inventory search; `q` is the lower-cased
/// search text.
pub open spec fn device_passes(d: Device, q: Seq<char>) -> bool {
    q.len() == 0 || text_contains(lowercase_text(d.ip_address@), q) || text_contains(
        lowercase_text(opt_text(d.mac_address)),
        q,
    ) || text_contains(lowercase_text(opt_text(d.hostname)), q) || text_contains(
        lowercase_text(d.device_type@),
        q,
    )
}

/// The inventory search as a test on devices.
pub open spec fn device_filter(q: Seq<char>) -> spec_fn(Device) -> bool {
    |d: Device| device_passes(d, q)
}

fn lower_contains(s: &str, q: &String) -> (r: bool)
    ensures
        r == text_contains(lowercase_text(s@), q@),
{
    let l = to_lowercase(s);
    str_contains(l.as_str(), q.as_str())
}

fn alert_passes_exec(
    a: &Alert,
    severity: Option<AlertSeverity>,
    status: Option<AlertStatus>,
    q: &String,
) -> (r: bool)
    ensures
        r == alert_passes(*a, severity, status, q@),
{
    if let Some(sev) = severity {
        if a.severity != sev {
            return false;
        }
    }
    if let Some(st) = status {
        if a.status != st {
            return false;
        }
    }
    if !q.as_str().is_empty() {
        let mut ips = String::new();
        push_str(&mut ips, a.src_ip.as_str());
        push_char(&mut ips, ' ');
        push_str(&mut ips, a.dst_ip.as_str());
        assert(ips@ =~= a.src_ip@ + seq![' '] + a.dst_ip@);
        if !lower_contains(ips.as_str(), q) && !lower_contains(a.title.as_str(), q) {
            return false;
        }
    }
    true
}


/// The incident table's rows: the alerts that pass the severity and status
/// choices and, when the search text is not empty, whose addresses or title
/// contain it, both sides lower-cased; order is kept.
pub fn filter_alerts(
    alerts: Vec<Alert>,
    severity: Option<AlertSeverity>,
    status: Option<AlertStatus>,
    query: &str,
) -> (r: Vec<Alert>)
    ensures
        r@ == alerts@.filter(alert_filter(severity, status, lowercase_text(query@))),
        severity is None && status is None && query@.len() == 0 ==> r@ == alerts@,
{
    let q = to_lowercase(query);
    let ghost all = alerts@;
    let mut kept: Vec<Alert> = Vec::new();
    for a in it: alerts.into_iter()
        invariant
            it.seq() == all,
            q@ == lowercase_text(query@),
            kept@ == all.take(it.index() as int).filter(alert_filter(severity, status, q@)),
    {
        proof {
            assert(all.take(it.index() + 1) == all.take(it.index() as int).push(a));
            all.take(it.index() as int).lemma_filter_push(a, alert_filter(severity, status, q@));
        }
        if alert_passes_exec(&a, severity, status, &q) {
            kept.push(a);
        }
    }
    assert(all.take(all.len() as int) == all);
    proof {
        if severity is None && status is None && query@.len() == 0 {
            assert(q@ =~= Seq::<char>::empty());
            law_alert_filter(all, None, None, Seq::empty());
        }
    }
    kept
}

fn traffic_passes_exec(t: &TrafficEvent, protocol: &Option<String>, q: &String) -> (r: bool)
    ensures
        r == traffic_passes(*t, opt_view(*protocol), q@),
{
    match protocol {
        Some(p) => {
            if !str_eq_ignore_ascii_case(t.protocol.as_str(), p.as_str()) {
                return false;
            }
        },
        None => {},
    }
    if !q.as_str().is_empty() {
        if !lower_contains(t.src_ip.as_str(), q) && !lower_contains(t.dst_ip.as_str(), q) {
            return false;
        }
    }
    true
}

/// The traffic feed's rows: the events whose protocol equals the chosen one
/// up to ASCII case and, when the search text is not empty, whose source or
/// destination address contains it, both sides lower-cased; order is kept.
pub fn filter_traffic(events: Vec<TrafficEvent>, protocol: Option<String>, query: &str) -> (r: Vec<
    TrafficEvent,
>)
    ensures
        r@ == events@.filter(traffic_filter(opt_view(protocol), lowercase_text(query@))),
        protocol is None && query@.len() == 0 ==> r@ == events@,
{
    let q = to_lowercase(query);
    let ghost proto = opt_view(protocol);
    let ghost all = events@;
    let mut kept: Vec<TrafficEvent> = Vec::new();
    for t in it: events.into_iter()
        invariant
            it.seq() == all,
            q@ == lowercase_text(query@),
            proto == opt_view(protocol),
            kept@ == all.take(it.index() as int).filter(traffic_filter(proto, q@)),
    {
        proof {
            assert(all.take(it.index() + 1) == all.take(it.index() as int).push(t));
            all.take(it.index() as int).lemma_filter_push(t, traffic_filter(proto, q@));
        }
        if traffic_passes_exec(&t, &protocol, &q) {
            kept.push(t);
        }
    }
    assert(all.take(all.len() as int) == all);
    proof {
        if protocol is None && query@.len() == 0 {
            assert(q@ =~= Seq::<char>::empty());
            law_traffic_filter_empty(all);
        }
    }
    kept
}

fn opt_str(o: &Option<String>) -> (r: &str)
    ensures
        r@ == opt_text(*o),
{
    match o {
        Some(s) => s.as_str(),
        None => {
            proof {
                reveal_strlit("");
            }
            ""
        },
    }
}

fn device_passes_exec(d: &Device, q: &String) -> (r: bool)
    ensures
        r == device_passes(*d, q@),
{
    if q.as_str().is_empty() {
        return true;
    }
    lower_contains(d.ip_address.as_str(), q) || lower_contains(opt_str(&d.mac_address), q)
        || lower_contains(opt_str(&d.hostname), q) || lower_contains(d.device_type.as_str(), q)
}

/// The inventory rows: every device when the lower-cased search text is
/// empty, else the devices whose address, MAC, host name or type contains
/// it, both sides lower-cased (an absent field counts as empty); order is kept.
pub fn filter_devices(devices: Vec<Device>, query: &str) -> (r: Vec<Device>)
    ensures
        r@ == devices@.filter(device_filter(lowercase_text(query@))),
        query@.len() == 0 ==> r@ == devices@,
{
    let q = to_lowercase(query);
    let ghost all = devices@;
    let mut kept: Vec<Device> = Vec::new();
    for d in it: devices.into_iter()
        invariant
            it.seq() == all,
            q@ == lowercase_text(query@),
            kept@ == all.take(it.index() as int).filter(device_filter(q@)),
    {
        proof {
            assert(all.take(it.index() + 1) == all.take(it.index() as int).push(d));
            all.take(it.index() as int).lemma_filter_push(d, device_filter(q@));
        }
        if device_passes_exec(&d, &q) {
            kept.push(d);
        }
    }
    assert(all.take(all.len() as int) == all);
    proof {
        if query@.len() == 0 {
            assert(q@ =~= Seq::<char>::empty());
            law_device_filter_empty(all);
        }
    }
    kept
}

} // verus!
