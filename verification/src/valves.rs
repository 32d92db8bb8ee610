//! The valves of a location by name.
use crate::device::DeviceState;
use crate::location::LocationSummary;
use crate::metrics::device_name;
use crate::state::ExporterState;
use vstd::prelude::*;

verus! {

use crate::device::DeviceView;
use crate::location::LocationView;
use crate::metrics::valve_label;
use crate::ordered::{ascending, key_order, key_order_of_finite};
use crate::state::StateView;
use crate::text::before;

/// A valve, with where it is and what it is called.
#[derive(Debug, Clone)]
pub struct ValveSummary {
    pub location_id: String,
    pub location_name: String,
    pub device_id: String,
    pub controller_name: String,
    pub service_id: String,
    pub valve_name: String,
}

/// What a [`ValveSummary`] says.
pub ghost struct ValveSummaryView {
    pub location_id: Seq<char>,
    pub location_name: Seq<char>,
    pub device_id: Seq<char>,
    pub controller_name: Seq<char>,
    pub service_id: Seq<char>,
    pub valve_name: Seq<char>,
}

impl View for ValveSummary {
    type V = ValveSummaryView;

    open spec fn view(&self) -> ValveSummaryView {
        ValveSummaryView {
            location_id: self.location_id@,
            location_name: self.location_name@,
            device_id: self.device_id@,
            controller_name: self.controller_name@,
            service_id: self.service_id@,
            valve_name: self.valve_name@,
        }
    }
}

/// What a list of valves says.
pub open spec fn summaries(valves: Seq<ValveSummary>) -> Seq<ValveSummaryView> {
    valves.map_values(|valve: ValveSummary| valve@)
}

/// The valves of a device under the given identifiers. A device or valve without a name is
/// called by its identifier.
pub open spec fn device_valves(
    location: LocationView,
    device: DeviceView,
    ids: Seq<Seq<char>>,
) -> Seq<ValveSummaryView> {
    ids.map_values(
        |id: Seq<char>|
            ValveSummaryView {
                location_id: location.id,
                location_name: location.name,
                device_id: device.id,
                controller_name: device.label(),
                service_id: device.valves[id].id,
                valve_name: valve_label(device.valves[id]),
            },
    )
}

/// The valves of the devices under the given identifiers.
pub open spec fn devices_valves(
    location: LocationView,
    state: StateView,
    ids: Seq<Seq<char>>,
) -> Seq<ValveSummaryView>
    decreases ids.len(),
{
    if ids.len() == 0 {
        Seq::empty()
    } else {
        let device = state.devices[ids.last()];
        devices_valves(location, state, ids.drop_last()) + device_valves(
            location,
            device,
            key_order(device.valves.dom()),
        )
    }
}

/// All valves of a location, by device and then by service.
pub open spec fn all_valves(location: LocationView, state: StateView) -> Seq<ValveSummaryView> {
    devices_valves(location, state, key_order(state.devices.dom()))
}

fn add_device_valves(
    valves: &mut Vec<ValveSummary>,
    location: &LocationSummary,
    device: &DeviceState,
)
    ensures
        summaries(final(valves)@) == summaries(old(valves)@) + device_valves(
            location@,
            device@,
            key_order(device@.valves.dom()),
        ),
{
    let ghost start = summaries(valves@);
    let ghost ids = key_order(device@.valves.dom());
    let count: usize = device.valves.len();
    assert(summaries(valves@) =~= start + device_valves(location@, device@, ids.take(0)));
    for i in 0..count
        invariant
            ids == key_order(device@.valves.dom()),
            count == ids.len(),
            summaries(valves@) == start + device_valves(location@, device@, ids.take(i as int)),
    {
        let ghost earlier = valves@;
        let valve = device.valves.value_at(i);
        valves.push(
            ValveSummary {
                location_id: location.id.clone(),
                location_name: location.name.clone(),
                device_id: device.id.clone(),
                controller_name: device_name(device),
                service_id: valve.id.clone(),
                valve_name: match &valve.name {
                    Some(name) => name.clone(),
                    None => valve.id.clone(),
                },
            },
        );
        proof {
            assert(summaries(valves@) =~= summaries(earlier).push(valves@.last()@));
            assert(device_valves(location@, device@, ids.take(i + 1)) =~= device_valves(
                location@,
                device@,
                ids.take(i as int),
            ).push(valves@.last()@));
        }
    }
    assert(ids.take(ids.len() as int) =~= ids);
}

/// Lists all valves of a location, by device and then by service.
pub fn valve_summaries(location: &LocationSummary, state: &ExporterState) -> (valves: Vec<
    ValveSummary,
>)
    ensures
        summaries(valves@) == all_valves(location@, state@),
{
    let mut valves: Vec<ValveSummary> = Vec::new();
    let ghost ids = key_order(state@.devices.dom());
    let count: usize = state.devices.len();
    assert(summaries(valves@) =~= Seq::empty());
    for i in 0..count
        invariant
            ids == key_order(state@.devices.dom()),
            count == ids.len(),
            summaries(valves@) == devices_valves(location@, state@, ids.take(i as int)),
    {
        let device = state.devices.value_at(i);
        add_device_valves(&mut valves, location, device);
        assert(ids.take(i + 1).drop_last() =~= ids.take(i as int));
    }
    assert(ids.take(ids.len() as int) =~= ids);
    valves
}

proof fn lemma_listed_with_device(
    location: LocationView,
    state: StateView,
    ids: Seq<Seq<char>>,
    i: int,
    k: int,
)
    requires
        0 <= i < ids.len(),
        0 <= k < key_order(state.devices[ids[i]].valves.dom()).len(),
    ensures
        ({
            let device = state.devices[ids[i]];
            devices_valves(location, state, ids).contains(
                device_valves(location, device, key_order(device.valves.dom()))[k],
            )
        }),
    decreases ids.len(),
{
    let rest = ids.drop_last();
    let earlier = devices_valves(location, state, rest);
    let last = state.devices[ids.last()];
    let more = device_valves(location, last, key_order(last.valves.dom()));
    let whole = devices_valves(location, state, ids);
    if i < rest.len() {
        assert(rest[i] == ids[i]);
        lemma_listed_with_device(location, state, rest, i, k);
        let device = state.devices[ids[i]];
        let row = device_valves(location, device, key_order(device.valves.dom()))[k];
        let p = choose|p: int| 0 <= p < earlier.len() && earlier[p] == row;
        assert(whole[p] == row);
    } else {
        assert(whole[earlier.len() + k] == more[k]);
    }
}

/// Every valve that is known is listed, under its own identifier and that of its device.
pub proof fn every_valve_is_listed(
    location: LocationView,
    state: StateView,
    device_id: Seq<char>,
    valve_id: Seq<char>,
)
    requires
        state.consistent(),
        state.devices.contains_key(device_id),
        state.devices[device_id].valves.contains_key(valve_id),
    ensures
        all_valves(location, state).contains(
            ValveSummaryView {
                location_id: location.id,
                location_name: location.name,
                device_id,
                controller_name: state.devices[device_id].label(),
                service_id: valve_id,
                valve_name: valve_label(state.devices[device_id].valves[valve_id]),
            },
        ),
        all_valves(location, state).contains(
            ValveSummaryView {
                location_id: location.id,
                location_name: location.name,
                device_id,
                controller_name: match state.devices[device_id].common {
                    Some(service) => match service.name {
                        Some(name) => name,
                        None => device_id,
                    },
                    None => device_id,
                },
                service_id: valve_id,
                valve_name: match state.devices[device_id].valves[valve_id].name {
                    Some(name) => name,
                    None => valve_id,
                },
            },
        ),
{
    let device = state.devices[device_id];
    let ids = key_order(state.devices.dom());
    let valve_ids = key_order(device.valves.dom());
    key_order_of_finite(state.devices.dom());
    key_order_of_finite(device.valves.dom());
    assert(ids.to_set().contains(device_id));
    assert(valve_ids.to_set().contains(valve_id));
    let i = choose|i: int| 0 <= i < ids.len() && ids[i] == device_id;
    let k = choose|k: int| 0 <= k < valve_ids.len() && valve_ids[k] == valve_id;
    lemma_listed_with_device(location, state, ids, i, k);
}

proof fn lemma_row_of_device(
    location: LocationView,
    state: StateView,
    ids: Seq<Seq<char>>,
    row: ValveSummaryView,
) -> (found: (Seq<char>, Seq<char>))
    requires
        devices_valves(location, state, ids).contains(row),
    ensures
        ids.contains(found.0),
        key_order(state.devices[found.0].valves.dom()).contains(found.1),
        row == device_valves(location, state.devices[found.0], seq![found.1])[0],
    decreases ids.len(),
{
    if ids.len() == 0 {
        assert(false);
        (Seq::empty(), Seq::empty())
    } else {
        let rest = ids.drop_last();
        let earlier = devices_valves(location, state, rest);
        let last = state.devices[ids.last()];
        let valve_ids = key_order(last.valves.dom());
        let more = device_valves(location, last, valve_ids);
        let whole = devices_valves(location, state, ids);
        let p = choose|p: int| 0 <= p < whole.len() && whole[p] == row;
        if p < earlier.len() {
            assert(earlier[p] == row);
            let found = lemma_row_of_device(location, state, rest, row);
            let i = choose|i: int| 0 <= i < rest.len() && rest[i] == found.0;
            assert(ids[i] == found.0);
            found
        } else {
            let k = p - earlier.len();
            assert(more[k] == row);
            assert(ids[ids.len() - 1] == ids.last());
            assert(valve_ids.contains(valve_ids[k]));
            (ids.last(), valve_ids[k])
        }
    }
}

/// Nothing is listed but valves that are known: each row stands for a valve of a device, under
/// the location that was asked for.
pub proof fn only_valves_are_listed(location: LocationView, state: StateView, row: ValveSummaryView)
    requires
        state.consistent(),
        all_valves(location, state).contains(row),
    ensures
        row.location_id == location.id,
        row.location_name == location.name,
        state.devices.contains_key(row.device_id),
        state.devices[row.device_id].valves.contains_key(row.service_id),
        row.controller_name == (match state.devices[row.device_id].common {
            Some(service) => match service.name {
                Some(name) => name,
                None => row.device_id,
            },
            None => row.device_id,
        }),
        row.valve_name == (match state.devices[row.device_id].valves[row.service_id].name {
            Some(name) => name,
            None => row.service_id,
        }),
{
    let ids = key_order(state.devices.dom());
    let found = lemma_row_of_device(location, state, ids, row);
    key_order_of_finite(state.devices.dom());
    assert(ids.to_set().contains(found.0));
    assert(state.devices.contains_key(found.0));
    let device = state.devices[found.0];
    key_order_of_finite(device.valves.dom());
    assert(key_order(device.valves.dom()).to_set().contains(found.1));
    assert(device.valves.contains_key(found.1));
}

/// What a [`ValveSummary`] says of each of its parts is what the field holds.
pub proof fn valve_summaries_say_what_they_hold(valve: ValveSummary)
    ensures
        valve@.location_id == valve.location_id@,
        valve@.location_name == valve.location_name@,
        valve@.device_id == valve.device_id@,
        valve@.controller_name == valve.controller_name@,
        valve@.service_id == valve.service_id@,
        valve@.valve_name == valve.valve_name@,
{
}

proof fn lemma_rows_in_order(
    location: LocationView,
    state: StateView,
    ids: Seq<Seq<char>>,
    i: int,
    j: int,
)
    requires
        ascending(ids),
        forall|k: int|
            0 <= k < ids.len() ==> state.devices[#[trigger] ids[k]].id == ids[k]
                && state.devices[ids[k]].consistent(),
        0 <= i < j < devices_valves(location, state, ids).len(),
    ensures
        ({
            let rows = devices_valves(location, state, ids);
            before(rows[i].device_id, rows[j].device_id) || (rows[i].device_id == rows[j].device_id
                && before(rows[i].service_id, rows[j].service_id))
        }),
    decreases ids.len(),
{
    let rest = ids.drop_last();
    let earlier = devices_valves(location, state, rest);
    let last = state.devices[ids.last()];
    let valve_ids = key_order(last.valves.dom());
    let more = device_valves(location, last, valve_ids);
    let rows = devices_valves(location, state, ids);
    assert(last.id == ids[ids.len() - 1]);
    key_order_of_finite(last.valves.dom());
    assert forall|k: int| 0 <= k < rest.len() implies state.devices[#[trigger] rest[k]].id
        == rest[k] && state.devices[rest[k]].consistent() by {
        assert(rest[k] == ids[k]);
    }
    if j < earlier.len() {
        lemma_rows_in_order(location, state, rest, i, j);
        assert(rows[i] == earlier[i] && rows[j] == earlier[j]);
    } else {
        let q = j - earlier.len();
        assert(rows[j] == more[q]);
        if i < earlier.len() {
            assert(rows[i] == earlier[i]);
            let found = lemma_row_of_device(location, state, rest, earlier[i]);
            let k = choose|k: int| 0 <= k < rest.len() && rest[k] == found.0;
            assert(ids[k] == found.0);
            assert(before(ids[k], ids[ids.len() - 1]));
        } else {
            let p = i - earlier.len();
            assert(rows[i] == more[p]);
            assert(before(valve_ids[p], valve_ids[q]));
            assert(valve_ids.to_set().contains(valve_ids[p]));
            assert(valve_ids.to_set().contains(valve_ids[q]));
            assert(last.valves.contains_key(valve_ids[p]));
            assert(last.valves.contains_key(valve_ids[q]));
        }
    }
}

/// Valves are listed in the order of their devices, and those of one device in the order of their
/// own identifiers; so none is listed twice.
pub proof fn valves_are_listed_in_order(location: LocationView, state: StateView, i: int, j: int)
    requires
        state.consistent(),
        0 <= i < j < all_valves(location, state).len(),
    ensures
        ({
            let rows = all_valves(location, state);
            before(rows[i].device_id, rows[j].device_id) || (rows[i].device_id == rows[j].device_id
                && before(rows[i].service_id, rows[j].service_id))
        }),
{
    let ids = key_order(state.devices.dom());
    key_order_of_finite(state.devices.dom());
    assert forall|k: int| 0 <= k < ids.len() implies state.devices[#[trigger] ids[k]].id == ids[k]
        && state.devices[ids[k]].consistent() by {
        assert(ids.to_set().contains(ids[k]));
        assert(state.devices.contains_key(ids[k]));
    }
    lemma_rows_in_order(location, state, ids, i, j);
}

}
