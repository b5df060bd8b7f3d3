//! The report of one poll round: one entry per service, and its JSON form.

use crate::json::{
    json_model, json_pretty, keys_of, models_of, pretty_text, push_member, value_of_items,
    value_of_members, value_of_text, value_of_u64, JsonModel, NumberModel,
};
use crate::stamp::{RoundStamp, StampModel};
use crate::status::{status_text, StatusResult};
use serde_json::Value;
use vstd::prelude::*;

verus! {

/// What one round found of one service.
#[derive(Clone, Debug, PartialEq, Eq)]
pub struct ReportEntry {
    /// The service's name.
    pub service: String,
    /// The service's status.
    pub status: StatusResult,
    /// The round's time in epoch seconds.
    pub timestamp: u64,
    /// The round's time in calendar form.
    pub datetime: String,
}

/// A `ReportEntry` as a mathematical value.
pub struct EntryModel {
    pub service: Seq<char>,
    pub status: StatusResult,
    pub timestamp: u64,
    pub datetime: Seq<char>,
}

impl View for ReportEntry {
    type V = EntryModel;

    open spec fn view(&self) -> EntryModel {
        EntryModel {
            service: self.service@,
            status: self.status,
            timestamp: self.timestamp,
            datetime: self.datetime@,
        }
    }
}

/// The entries of a list as mathematical values.
pub open spec fn entry_models(entries: Seq<ReportEntry>) -> Seq<EntryModel> {
    entries.map_values(|e: ReportEntry| e@)
}

/// The entry of a service with a status in a round.
pub open spec fn entry_of(service: Seq<char>, status: StatusResult, stamp: StampModel)
    -> EntryModel {
    EntryModel { service, status, timestamp: stamp.timestamp, datetime: stamp.datetime }
}

impl ReportEntry {
    /// The entry of the service `service` with `status` in the round of `stamp`.
    pub fn new(service: &str, status: StatusResult, stamp: &RoundStamp) -> (r: ReportEntry)
        ensures
            r@ == entry_of(service@, status, stamp@),
    {
        ReportEntry {
            service: String::from_str(service),
            status,
            timestamp: stamp.timestamp,
            datetime: stamp.datetime.clone(),
        }
    }
}

/// The document of one entry: `service`, `status`, `timestamp`, `datetime`.
pub open spec fn entry_json(entry: EntryModel) -> JsonModel {
    JsonModel::Object(
        Map::<Seq<char>, JsonModel>::empty().insert("service"@, JsonModel::Text(entry.service))
            .insert("status"@, JsonModel::Text(status_text(entry.status))).insert(
            "timestamp"@,
            JsonModel::Number(NumberModel::Unsigned(entry.timestamp)),
        ).insert("datetime"@, JsonModel::Text(entry.datetime)),
    )
}

/// The document of a report: the array of its entries' documents, in order.
pub open spec fn report_json(entries: Seq<EntryModel>) -> JsonModel {
    JsonModel::Array(entries.map_values(|e: EntryModel| entry_json(e)))
}

proof fn lemma_keys_distinct()
    ensures
        seq!["service"@, "status"@, "timestamp"@, "datetime"@].no_duplicates(),
{
    reveal_strlit("service");
    reveal_strlit("status");
    reveal_strlit("timestamp");
    reveal_strlit("datetime");
    assert("service"@.len() == 7);
    assert("status"@.len() == 6);
    assert("timestamp"@.len() == 9);
    assert("datetime"@.len() == 8);
}

fn entry_to_value(entry: &ReportEntry) -> (v: Value)
    ensures
        json_model(v) == entry_json(entry@),
{
    let mut pairs: Vec<(String, Value)> = Vec::new();
    push_member(&mut pairs, "service", value_of_text(entry.service.clone()));
    push_member(&mut pairs, "status", value_of_text(String::from_str(entry.status.as_str())));
    push_member(&mut pairs, "timestamp", value_of_u64(entry.timestamp));
    push_member(&mut pairs, "datetime", value_of_text(entry.datetime.clone()));
    proof {
        lemma_keys_distinct();
        assert(keys_of(pairs@) =~= seq!["service"@, "status"@, "timestamp"@, "datetime"@]);
    }
    value_of_members(pairs)
}

/// The JSON document of a report.
pub fn report_to_value(entries: &Vec<ReportEntry>) -> (v: Value)
    ensures
        json_model(v) == report_json(entry_models(entries@)),
{
    let ghost all = entry_models(entries@);
    let mut items: Vec<Value> = Vec::new();
    let mut i: usize = 0;
    while i < entries.len()
        invariant
            i <= entries.len(),
            all == entry_models(entries@),
            models_of(items@) == all.take(i as int).map_values(|e: EntryModel| entry_json(e)),
        decreases entries.len() - i,
    {
        let item = entry_to_value(&entries[i]);
        proof {
            assert(all[i as int] == entries@[i as int]@);
            assert(models_of(items@.push(item)) =~= models_of(items@).push(json_model(item)));
            assert(all.take(i + 1).map_values(|e: EntryModel| entry_json(e)) =~= all.take(
                i as int,
            ).map_values(|e: EntryModel| entry_json(e)).push(entry_json(all[i as int])));
        }
        items.push(item);
        i += 1;
    }
    proof {
        assert(all.take(i as int) =~= all);
    }
    value_of_items(items)
}

/// The JSON text of a report, indented for reading.
pub fn render_report(entries: &Vec<ReportEntry>) -> (r: String)
    ensures
        r@ == json_pretty(report_json(entry_models(entries@))),
{
    pretty_text(&report_to_value(entries))
}

} // verus!
