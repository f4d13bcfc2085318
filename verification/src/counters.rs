//! The counter source: the table of network interfaces that `sysinfo` keeps,
//! read for the names it lists and for the byte counters of one interface.
//!
//! Refreshing the table is the caller's business. What is decided here, from
//! the table as it stands, is whether the interface to monitor exists and
//! what its reading is.

use crate::analytics::{AnalyticsModel, Anomalies, NetworkAnalytics, Reading};
use crate::interface::{
    check_interface, lost_text, monitor_step, names_of, not_found_text, usage_text,
    InterfaceError,
};
use sysinfo::{NetworkData, Networks};
use vstd::prelude::*;

verus! {

/// The byte counters of one interface: the cumulative totals, and what was
/// counted between the last two refreshes of the table.
#[derive(Debug, Clone, Copy, PartialEq, Eq, Structural)]
pub struct Counters {
    pub total_received: u64,
    pub total_transmitted: u64,
    pub received: u64,
    pub transmitted: u64,
}

#[verifier::external_type_specification]
#[verifier::external_body]
pub struct ExNetworks(Networks);

// `Networks` dereferences to a map of `NetworkData`, so the type has to be
// known here, though nothing in this library holds one.
#[verifier::external_type_specification]
#[verifier::external_body]
pub struct ExNetworkData(NetworkData);

/// What a table of interfaces holds: for the name of each interface it
/// lists, the counters of that interface.
pub uninterp spec fn interface_table(networks: Networks) -> Map<Seq<char>, Counters>;

/// `listing` names each of `names` once, in some order.
pub open spec fn is_listing_of(listing: Seq<Seq<char>>, names: Set<Seq<char>>) -> bool {
    listing.no_duplicates() && listing.to_set() == names
}

/// The reading that the table holds for `interface`, if it lists it: the
/// cumulative bytes received and sent.
pub open spec fn reading_in(table: Map<Seq<char>, Counters>, interface: Seq<char>) -> Option<
    (u64, u64),
> {
    if table.dom().contains(interface) {
        Some((table[interface].total_received, table[interface].total_transmitted))
    } else {
        None
    }
}

/// The usage that the table holds for `interface`, if it lists it: the bytes
/// transmitted and received between the last two refreshes.
pub open spec fn usage_in(table: Map<Seq<char>, Counters>, interface: Seq<char>) -> Option<
    (u64, u64),
> {
    if table.dom().contains(interface) {
        Some((table[interface].transmitted, table[interface].received))
    } else {
        None
    }
}

/// `sysinfo::Networks::list`, with the keys of the map it returns copied
/// out. The keys of a map are distinct, so the result names every listed
/// interface once; the order is that of the map's iteration and nothing is
/// claimed of it.
#[verifier::external_body]
fn listed_names(networks: &Networks) -> (names: Vec<String>)
    ensures
        is_listing_of(names_of(names@), interface_table(*networks).dom()),
{
    networks.list().keys().cloned().collect()
}

/// `sysinfo::Networks::list`, looked up for `name`, with the four byte
/// counters of the entry, `NetworkData::total_received`,
/// `NetworkData::total_transmitted`, `NetworkData::received` and
/// `NetworkData::transmitted`, copied out. There is an entry exactly for the
/// listed names, and the accessors return what the entry holds.
#[verifier::external_body]
fn counters_of(networks: &Networks, name: &str) -> (counters: Option<Counters>)
    ensures
        counters == if interface_table(*networks).dom().contains(name@) {
            Some(interface_table(*networks)[name@])
        } else {
            None
        },
{
    networks.list().get(name).map(
        |data|
            Counters {
                total_received: data.total_received(),
                total_transmitted: data.total_transmitted(),
                received: data.received(),
                transmitted: data.transmitted(),
            },
    )
}

/// The reading of `interface`: its cumulative bytes received and sent, or
/// none when the table does not list it.
pub fn read_counters(networks: &Networks, interface: &str) -> (reading: Option<(u64, u64)>)
    ensures
        reading == reading_in(interface_table(*networks), interface@),
{
    match counters_of(networks, interface) {
        Some(counters) => Some((counters.total_received, counters.total_transmitted)),
        None => None,
    }
}

/// The usage of `interface`: the bytes it transmitted and received between
/// the last two refreshes, or none when the table does not list it.
pub fn read_usage(networks: &Networks, interface: &str) -> (usage: Option<(u64, u64)>)
    ensures
        usage == usage_in(interface_table(*networks), interface@),
{
    match counters_of(networks, interface) {
        Some(counters) => Some((counters.transmitted, counters.received)),
        None => None,
    }
}

/// Decides whether monitoring of `interface` can begin: it can when the
/// table lists the interface, and otherwise fails with an error that lists
/// the interfaces that exist, each once.
pub fn check_networks(networks: &Networks, interface: &String) -> (outcome: Result<
    (),
    InterfaceError,
>)
    ensures
        interface_table(*networks).dom().contains(interface@) ==> outcome is Ok,
        !interface_table(*networks).dom().contains(interface@) ==> outcome is Err && exists|
            listing: Seq<Seq<char>>,
        |
            is_listing_of(listing, interface_table(*networks).dom()) && outcome->Err_0@
                == not_found_text(interface@, listing),
{
    let names = listed_names(networks);
    check_interface(&names, interface)
}

/// One step of plain monitoring on the table as it stands: the usage
/// report of `interface`, or, when the table no longer lists it, the error
/// that ends the monitoring.
pub fn monitor(networks: &Networks, interface: &str) -> (outcome: Result<String, InterfaceError>)
    ensures
        match usage_in(interface_table(*networks), interface@) {
            Some((transmitted, received)) => outcome is Ok && outcome->Ok_0@ == usage_text(
                transmitted,
                received,
            ),
            None => outcome is Err && outcome->Err_0@ == lost_text(interface@),
        },
{
    monitor_step(interface, read_usage(networks, interface))
}

/// The state after one step of the collector at `now` on a table that holds
/// `table`: with a reading of the monitored interface the state is updated,
/// without one it stays as it is.
pub open spec fn collected(
    state: AnalyticsModel,
    table: Map<Seq<char>, Counters>,
    now: u128,
) -> AnalyticsModel {
    match reading_in(table, state.interface_name) {
        Some((bytes_received, bytes_sent)) => state.updated(
            (Reading { bytes_received, bytes_sent, at: now }),
        ),
        None => state,
    }
}

/// One step of the collector on the table as it stands, taken at `now`: the
/// reading of the monitored interface is recorded and what was out of the
/// ordinary in it is returned, or, when the table no longer lists the
/// interface, nothing is recorded and the error that ends the monitoring is
/// returned.
pub fn collect(analytics: &mut NetworkAnalytics, networks: &Networks, now: u128) -> (outcome:
    Result<Anomalies, InterfaceError>)
    ensures
        final(analytics)@.well_formed(),
        final(analytics)@ == collected(old(analytics)@, interface_table(*networks), now),
        match reading_in(interface_table(*networks), old(analytics)@.interface_name) {
            Some((bytes_received, bytes_sent)) => {
                &&& outcome is Ok
                &&& outcome->Ok_0 == old(analytics)@.anomalies(
                    (Reading { bytes_received, bytes_sent, at: now }),
                )
            },
            None => {
                &&& outcome is Err
                &&& outcome->Err_0@ == lost_text(old(analytics)@.interface_name)
            },
        },
{
    let reading = read_counters(networks, analytics.interface_name().as_str());
    analytics.tick(reading, now)
}

} // verus!
