use vstd::prelude::*;
use crate::manager::{path_state, step_spec, Outcome, PathView};
use crate::parser::{lookup_in, parse_spec, RawPayload};
use crate::reader::{
    after_disconnect, after_fetch, after_reconnect, fetch_emits, notification_emits, ReaderView,
};
use crate::resolver::{resolve_payload_spec, resolve_spec, Rejection};
use crate::schema::{field_key, modbus_rtu_tag, CfgParity, FieldName, RegisterType, VariantView};

verus! {

/// A Modbus RTU payload that omits `count`, `register_type` and `parity` parses, when it parses
/// at all, with `count = 1`, `register_type = holding` and `parity = none`, and an accepted
/// snapshot of it carries those values.
pub proof fn law_defaults_for_omitted_fields(p: &RawPayload, path: Seq<char>, version: u64, accepted_at: u64)
    requires
        p.tag@ == modbus_rtu_tag(),
        lookup_in(p.fields@, field_key(FieldName::Count)) is Absent,
        lookup_in(p.fields@, field_key(FieldName::RegisterType)) is Absent,
        lookup_in(p.fields@, field_key(FieldName::Parity)) is Absent,
    ensures
        parse_spec(p) matches Ok(VariantView::ModbusRtu(c)) ==> c.count == 1 && c.register_type
            == RegisterType::Holding && c.parity == CfgParity::NoParity,
        resolve_payload_spec(p, path, version, accepted_at) matches Ok(s) ==> (s.variant matches VariantView::ModbusRtu(
            c,
        ) && c.count == 1 && c.register_type == RegisterType::Holding && c.parity == CfgParity::NoParity),
{
}

/// A Modbus RTU configuration whose `data_bits` lies outside 5..=8, whose `stop_bits` is neither
/// 1 nor 2, or whose `count` is 0 is refused at validation, and an event carrying it leaves the
/// active snapshot of its path as it was.
pub proof fn law_bad_serial_settings_rejected(
    p: &RawPayload,
    st: PathView,
    path: Seq<char>,
    version: u64,
    accepted_at: u64,
)
    requires
        parse_spec(p) matches Ok(VariantView::ModbusRtu(c)) && (!(5 <= c.data_bits <= 8) || !(
        c.stop_bits == 1 || c.stop_bits == 2) || c.count < 1),
    ensures
        resolve_payload_spec(p, path, version, accepted_at) matches Err(Rejection::Validation(_)),
        step_spec(st, path, version, p, accepted_at).0.current == st.current,
{
}

/// A register block that runs past address 65535 is refused.
pub proof fn law_register_overflow_rejected(v: VariantView, path: Seq<char>, version: u64, accepted_at: u64)
    requires
        v matches VariantView::ModbusRtu(c) && c.register + c.count - 1 > 65535,
    ensures
        resolve_spec(v, path, version, accepted_at) is Err,
{
}

/// Resolving the same payload twice gives the same rejection, or snapshots that differ in
/// their acceptance time at most.
pub proof fn law_resolution_is_deterministic(
    p: &RawPayload,
    path: Seq<char>,
    version: u64,
    t1: u64,
    t2: u64,
)
    ensures
        match (resolve_payload_spec(p, path, version, t1), resolve_payload_spec(p, path, version, t2)) {
            (Ok(a), Ok(b)) => a.path == b.path && a.version == b.version && a.variant == b.variant
                && a.accepted_at == t1 && b.accepted_at == t2,
            (Err(a), Err(b)) => a == b,
            _ => false,
        },
{
}

/// An event whose version is not newer than the active snapshot of its path is ignored, and
/// the manager's map of paths stays as it was.
pub proof fn law_stale_event_ignored(
    m: Map<Seq<char>, PathView>,
    path: Seq<char>,
    version: u64,
    raw: &RawPayload,
    accepted_at: u64,
)
    requires
        path_state(m, path).current matches Some(s) && version <= s.version,
    ensures
        step_spec(path_state(m, path), path, version, raw, accepted_at).1 == Outcome::Ignored,
        m.insert(path, step_spec(path_state(m, path), path, version, raw, accepted_at).0) == m,
{
    assert(m.insert(path, step_spec(path_state(m, path), path, version, raw, accepted_at).0) =~= m);
}

/// After the store is lost and the subscription comes back, the point read of the version last
/// passed on is replayed once, and neither a second read nor a notification of that version
/// is passed on again. Where the manager already holds a snapshot of that version, the replay
/// is ignored and replaces nothing.
pub proof fn law_reconnect_replays_once(
    st: ReaderView,
    m: Map<Seq<char>, PathView>,
    version: u64,
    raw: &RawPayload,
    accepted_at: u64,
)
    requires
        st.last_version == Some(version),
    ensures
        fetch_emits(after_reconnect(after_disconnect(st)), version),
        !fetch_emits(after_fetch(after_reconnect(after_disconnect(st)), version), version),
        !notification_emits(after_fetch(after_reconnect(after_disconnect(st)), version), version),
        path_state(m, st.path).current matches Some(s) && s.version == version ==> step_spec(
            path_state(m, st.path),
            st.path,
            version,
            raw,
            accepted_at,
        ).1 == Outcome::Ignored && m.insert(
            st.path,
            step_spec(path_state(m, st.path), st.path, version, raw, accepted_at).0,
        ) == m,
{
    if path_state(m, st.path).current matches Some(s) && s.version == version {
        law_stale_event_ignored(m, st.path, version, raw, accepted_at);
    }
}

} // verus!
