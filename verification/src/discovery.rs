use vstd::prelude::*;

use vstd::string::StringExecFns;

use crate::protocol::PROTOCOL_VERSION;

verus! {

/// The per-instance record that a running app publishes for local clients. It holds endpoint
/// metadata only, never credentials.
#[derive(Clone, Debug, Eq, PartialEq)]
pub struct DiscoveryRecord {
    pub instance_id: String,
    pub pid: u32,
    pub channel: String,
    pub app_version: String,
    pub protocol_version: u16,
    pub started_at_unix_ms: u64,
    pub outside_warp_control_enabled: bool,
    pub endpoint: Option<String>,
    pub implemented_actions: Vec<String>,
}

/// The plain content of a discovery record.
pub struct DiscoveryRecordView {
    pub instance_id: Seq<char>,
    pub pid: u32,
    pub channel: Seq<char>,
    pub app_version: Seq<char>,
    pub protocol_version: u16,
    pub started_at_unix_ms: u64,
    pub outside_warp_control_enabled: bool,
    pub endpoint: Option<Seq<char>>,
    pub implemented_actions: Seq<Seq<char>>,
}

pub open spec fn string_views(strings: Seq<String>) -> Seq<Seq<char>> {
    strings.map_values(|s: String| s@)
}

impl View for DiscoveryRecord {
    type V = DiscoveryRecordView;

    open spec fn view(&self) -> DiscoveryRecordView {
        DiscoveryRecordView {
            instance_id: self.instance_id@,
            pid: self.pid,
            channel: self.channel@,
            app_version: self.app_version@,
            protocol_version: self.protocol_version,
            started_at_unix_ms: self.started_at_unix_ms,
            outside_warp_control_enabled: self.outside_warp_control_enabled,
            endpoint: match self.endpoint {
                Some(endpoint) => Some(endpoint@),
                None => None,
            },
            implemented_actions: string_views(self.implemented_actions@),
        }
    }
}

/// Two lists of records hold the same records, position by position.
pub open spec fn same_records(a: Seq<DiscoveryRecord>, b: Seq<DiscoveryRecord>) -> bool {
    a.len() == b.len() && forall|i: int| 0 <= i < a.len() ==> (#[trigger] a[i])@ == b[i]@
}

pub open spec fn is_compatible_record(record: DiscoveryRecord) -> bool {
    record.protocol_version == PROTOCOL_VERSION
}

pub open spec fn is_actionable_record(record: DiscoveryRecord) -> bool {
    record.outside_warp_control_enabled && record.endpoint is Some
}

pub open spec fn is_stale_record(record: DiscoveryRecord) -> bool {
    record.pid == 0 || !is_compatible_record(record)
}

/// A record is stale, given whether its process is still alive, when it has no process id,
/// its process is gone, or it speaks another protocol version.
pub open spec fn is_stale_record_given(record: DiscoveryRecord, process_alive: bool) -> bool {
    is_stale_record(record) || !process_alive
}

/// A record that clients may select and send requests to.
pub open spec fn is_selectable_record(record: DiscoveryRecord) -> bool {
    is_compatible_record(record) && is_actionable_record(record)
}

/// The records of `records` that clients may select, in order.
pub open spec fn selectable_records(records: Seq<DiscoveryRecord>) -> Seq<DiscoveryRecord> {
    records.filter(|record: DiscoveryRecord| is_selectable_record(record))
}

/// Copies a list of strings element by element.
pub fn copy_strings(strings: &Vec<String>) -> (copy: Vec<String>)
    ensures
        copy@ == strings@,
{
    let mut copy: Vec<String> = Vec::new();
    let mut i: usize = 0;
    while i < strings.len()
        invariant
            0 <= i <= strings@.len(),
            copy@ == strings@.take(i as int),
        decreases strings@.len() - i,
    {
        copy.push(strings[i].clone());
        assert(strings@.take(i + 1) =~= strings@.take(i as int).push(strings@[i as int]));
        i = i + 1;
    }
    assert(strings@.take(strings@.len() as int) =~= strings@);
    copy
}

impl DiscoveryRecord {
    /// The record of an instance whose outside-Warp control is off: no endpoint and no actions.
    pub fn disabled(instance_id: &str, pid: u32) -> (record: DiscoveryRecord)
        ensures
            record.instance_id@ == instance_id@,
            record.pid == pid,
            record.channel@ == Seq::<char>::empty(),
            record.app_version@ == Seq::<char>::empty(),
            record.protocol_version == PROTOCOL_VERSION,
            record.started_at_unix_ms == 0,
            !record.outside_warp_control_enabled,
            record.endpoint is None,
            record.implemented_actions@.len() == 0,
    {
        DiscoveryRecord {
            instance_id: instance_id.to_owned(),
            pid,
            channel: String::new(),
            app_version: String::new(),
            protocol_version: PROTOCOL_VERSION,
            started_at_unix_ms: 0,
            outside_warp_control_enabled: false,
            endpoint: None,
            implemented_actions: Vec::new(),
        }
    }

    pub fn is_actionable(&self) -> (actionable: bool)
        ensures
            actionable == is_actionable_record(*self),
    {
        self.outside_warp_control_enabled && self.endpoint.is_some()
    }

    pub fn is_compatible(&self) -> (compatible: bool)
        ensures
            compatible == is_compatible_record(*self),
    {
        self.protocol_version == PROTOCOL_VERSION
    }

    /// A record is stale on its face when its process id is 0 or it speaks another protocol
    /// version; whether its process is still running is not looked at here.
    pub fn is_stale(&self) -> (stale: bool)
        ensures
            stale == is_stale_record(*self),
    {
        self.pid == 0 || !self.is_compatible()
    }

    /// Whether the record is stale, given whether its process is still alive: records of
    /// processes that are gone are pruned too.
    pub fn is_stale_given(&self, process_alive: bool) -> (stale: bool)
        ensures
            stale == is_stale_record_given(*self, process_alive),
    {
        self.is_stale() || !process_alive
    }

    /// A field-by-field copy.
    pub fn duplicate(&self) -> (copy: DiscoveryRecord)
        ensures
            copy@ == self@,
    {
        let endpoint = match &self.endpoint {
            Some(endpoint) => Some(endpoint.clone()),
            None => None,
        };
        let implemented_actions = copy_strings(&self.implemented_actions);
        assert(string_views(implemented_actions@) =~= string_views(self.implemented_actions@));
        DiscoveryRecord {
            instance_id: self.instance_id.clone(),
            pid: self.pid,
            channel: self.channel.clone(),
            app_version: self.app_version.clone(),
            protocol_version: self.protocol_version,
            started_at_unix_ms: self.started_at_unix_ms,
            outside_warp_control_enabled: self.outside_warp_control_enabled,
            endpoint,
            implemented_actions,
        }
    }

    /// The file name under which the record is stored in the registry directory.
    pub fn file_name(&self) -> (name: String)
        ensures
            name@ == self.instance_id@ + ".json"@,
    {
        let mut name = self.instance_id.clone();
        name.append(".json");
        name
    }
}

/// The file, beside an instance's discovery record, that holds the broker token a client
/// presents when it asks that instance for a credential.
pub fn broker_token_file_name(instance_id: &str) -> (name: String)
    ensures
        name@ == instance_id@ + ".token"@,
{
    instance_id.to_owned().concat(".token")
}

/// A registry file name whose extension is `json`: a non-empty stem, then `.json`.
pub open spec fn is_record_file(name: Seq<char>) -> bool {
    name.len() > 5 && name.subrange(name.len() - 5, name.len() as int) == ".json"@
}

/// Whether a file found in the registry directory holds a discovery record, judged by its
/// name: its extension must be `json`.
pub fn is_record_file_name(name: &str) -> (is_record: bool)
    ensures
        is_record == is_record_file(name@),
{
    let suffix = ".json";
    proof {
        reveal_strlit(".json");
    }
    assert(suffix@.len() == 5);
    let len = name.unicode_len();
    if len <= 5 {
        return false;
    }
    let mut i: usize = 0;
    while i < 5
        invariant
            0 <= i <= 5,
            len == name@.len(),
            len > 5,
            suffix@ == ".json"@,
            suffix@.len() == 5,
            forall|j: int| 0 <= j < i ==> name@[len - 5 + j] == suffix@[j],
        decreases 5 - i,
    {
        if name.get_char(len - 5 + i) != suffix.get_char(i) {
            assert(name@.subrange(len - 5, len as int)[i as int] != suffix@[i as int]);
            return false;
        }
        i = i + 1;
    }
    assert(name@.subrange(len - 5, len as int) =~= suffix@);
    true
}

/// The records that clients may select, in the order given.
pub fn compatible_actionable_records(records: &[DiscoveryRecord]) -> (selectable: Vec<DiscoveryRecord>)
    ensures
        same_records(selectable@, selectable_records(records@)),
{
    let mut selectable: Vec<DiscoveryRecord> = Vec::new();
    let mut i: usize = 0;
    while i < records.len()
        invariant
            0 <= i <= records@.len(),
            same_records(selectable@, selectable_records(records@.take(i as int))),
        decreases records@.len() - i,
    {
        proof {
            reveal_with_fuel(Seq::<_>::filter, 1);
            assert(records@.take(i + 1).drop_last() =~= records@.take(i as int));
        }
        if records[i].is_compatible() && records[i].is_actionable() {
            selectable.push(records[i].duplicate());
        }
        i = i + 1;
    }
    assert(records@.take(records@.len() as int) =~= records@);
    selectable
}

/// No record whose outside-Warp control is off, or that speaks another protocol version,
/// is ever offered to clients.
pub proof fn lemma_only_enabled_compatible_records_are_offered(records: Seq<DiscoveryRecord>, i: int)
    requires
        0 <= i < selectable_records(records).len(),
    ensures
        selectable_records(records)[i].outside_warp_control_enabled,
        selectable_records(records)[i].endpoint is Some,
        selectable_records(records)[i].protocol_version == PROTOCOL_VERSION,
        records.contains(selectable_records(records)[i]),
{
    let pred = |record: DiscoveryRecord| is_selectable_record(record);
    records.lemma_filter_pred(pred, i);
    assert(selectable_records(records).contains(selectable_records(records)[i]));
    records.lemma_filter_contains_rev(pred, selectable_records(records)[i]);
}

/// Selecting from records that were already selected keeps every one of them, in order:
/// the selection is idempotent.
pub proof fn lemma_selecting_twice_changes_nothing(records: Seq<DiscoveryRecord>)
    ensures
        selectable_records(selectable_records(records)) == selectable_records(records),
    decreases records.len(),
{
    reveal_with_fuel(Seq::<_>::filter, 1);
    if records.len() == 0 {
        assert(selectable_records(records) =~= Seq::<DiscoveryRecord>::empty());
        assert(selectable_records(Seq::<DiscoveryRecord>::empty()) =~= Seq::<DiscoveryRecord>::empty());
    } else {
        let shorter = records.drop_last();
        lemma_selecting_twice_changes_nothing(shorter);
        let kept = selectable_records(shorter);
        let last = records.last();
        if is_selectable_record(last) {
            assert(selectable_records(records) =~= kept.push(last));
            assert(kept.push(last).drop_last() =~= kept);
            assert(selectable_records(kept.push(last)) =~= selectable_records(kept).push(last));
        } else {
            assert(selectable_records(records) =~= kept);
        }
    }
}

} // verus!
