//! Gardena locations, and the choice of the one to export.
use crate::json::{copy_document, string_attr};
use crate::text::{join, same};
use serde_json::Value;
use vstd::prelude::*;

verus! {

use crate::json::{document, text_at, Json};
use crate::text::{joined, texts};

/// A location that the application can reach.
#[derive(Debug)]
pub struct LocationSummary {
    pub id: String,
    pub name: String,
}

/// What a [`LocationSummary`] says.
pub ghost struct LocationView {
    pub id: Seq<char>,
    pub name: Seq<char>,
}

impl View for LocationSummary {
    type V = LocationView;

    open spec fn view(&self) -> LocationView {
        LocationView { id: self.id@, name: self.name@ }
    }
}

impl Clone for LocationSummary {
    /// A second summary that says the same.
    fn clone(&self) -> (copy: Self)
        ensures
            copy@ == self@,
    {
        LocationSummary { id: self.id.clone(), name: self.name.clone() }
    }
}

/// What a list of locations says.
pub open spec fn places(locations: Seq<LocationSummary>) -> Seq<LocationView> {
    locations.map_values(|location: LocationSummary| location@)
}

/// A resource of the location list.
#[derive(Debug)]
pub struct LocationResource {
    pub id: String,
    pub kind: String,
    pub attributes: Option<Value>,
}

/// What a [`LocationResource`] says.
pub ghost struct LocationResourceView {
    pub id: Seq<char>,
    pub kind: Seq<char>,
    pub attributes: Option<Json>,
}

impl View for LocationResource {
    type V = LocationResourceView;

    open spec fn view(&self) -> LocationResourceView {
        LocationResourceView {
            id: self.id@,
            kind: self.kind@,
            attributes: document(self.attributes),
        }
    }
}

impl Clone for LocationResource {
    /// A second one that says the same.
    fn clone(&self) -> (copy: Self)
        ensures
            copy@ == self@,
    {
        LocationResource {
            id: self.id.clone(),
            kind: self.kind.clone(),
            attributes: copy_document(&self.attributes),
        }
    }
}

/// The answer to a request for the locations.
#[derive(Debug)]
pub struct LocationListResponse {
    pub data: Vec<LocationResource>,
}

impl View for LocationListResponse {
    type V = Seq<LocationResourceView>;

    open spec fn view(&self) -> Seq<LocationResourceView> {
        self.data@.map_values(|resource: LocationResource| resource@)
    }
}

impl Clone for LocationListResponse {
    /// A second one that says the same.
    fn clone(&self) -> (copy: Self)
        ensures
            copy@ == self@,
    {
        let mut data: Vec<LocationResource> = Vec::new();
        for i in 0..self.data.len()
            invariant
                data.len() == i,
                forall|j: int| 0 <= j < i ==> (#[trigger] data@[j])@ == self.data@[j]@,
        {
            data.push(self.data[i].clone());
        }
        let copy = LocationListResponse { data };
        assert(copy@ =~= self@);
        copy
    }
}

/// The locations among the resources of a list, in their order. A location without a name is
/// called by its identifier.
pub open spec fn listed(resources: Seq<LocationResourceView>) -> Seq<LocationView>
    decreases resources.len(),
{
    if resources.len() == 0 {
        Seq::empty()
    } else {
        let last = resources.last();
        let earlier = listed(resources.drop_last());
        if last.kind == "LOCATION"@ {
            earlier.push(
                LocationView {
                    id: last.id,
                    name: match text_at(last.attributes, "name"@) {
                        Some(name) => name,
                        None => last.id,
                    },
                },
            )
        } else {
            earlier
        }
    }
}

/// Picks the locations out of the resources of a list.
pub fn location_summaries(response: &LocationListResponse) -> (locations: Vec<LocationSummary>)
    ensures
        places(locations@) == listed(response@),
{
    let mut locations: Vec<LocationSummary> = Vec::new();
    let ghost all = response@;
    assert(places(locations@) =~= listed(all.take(0)));
    for i in 0..response.data.len()
        invariant
            all == response@,
            places(locations@) == listed(all.take(i as int)),
    {
        let resource = &response.data[i];
        let ghost known = locations@;
        assert(all.take(i + 1).drop_last() =~= all.take(i as int));
        assert(all.take(i + 1).last() == resource@);
        if same(resource.kind.as_str(), "LOCATION") {
            let name = match string_attr(resource.attributes.as_ref(), "name") {
                Some(name) => name,
                None => resource.id.clone(),
            };
            locations.push(LocationSummary { id: resource.id.clone(), name });
            assert(places(locations@) =~= places(known).push(locations@.last()@));
        }
    }
    assert(all.take(all.len() as int) =~= all);
    locations
}

/// Why no location was chosen.
#[derive(Debug, Clone)]
pub enum LocationError {
    /// The configured identifier is not among the locations.
    NotFound { location_id: String },
    /// The application reaches no location.
    NoneAvailable,
    /// There are several and none is configured.
    Ambiguous { choices: String },
}

/// What a [`LocationError`] says.
pub ghost enum LocationErrorView {
    NotFound { location_id: Seq<char> },
    NoneAvailable,
    Ambiguous { choices: Seq<char> },
}

impl View for LocationError {
    type V = LocationErrorView;

    open spec fn view(&self) -> LocationErrorView {
        match self {
            LocationError::NotFound { location_id } => LocationErrorView::NotFound {
                location_id: location_id@,
            },
            LocationError::NoneAvailable => LocationErrorView::NoneAvailable,
            LocationError::Ambiguous { choices } => LocationErrorView::Ambiguous {
                choices: choices@,
            },
        }
    }
}

impl LocationErrorView {
    /// The error in words.
    pub open spec fn words(self) -> Seq<char> {
        match self {
            LocationErrorView::NotFound { location_id } => "configured location id "@ + location_id
                + " was not found"@,
            LocationErrorView::NoneAvailable =>
                "no Gardena locations are available for this application"@,
            LocationErrorView::Ambiguous { choices } =>
                "multiple Gardena locations are available; set --location-id to one of: "@ + choices,
        }
    }
}

impl LocationError {
    /// The error in words.
    pub fn message(&self) -> (words: String)
        ensures
            words@ == self@.words(),
    {
        match self {
            LocationError::NotFound { location_id } => "configured location id ".to_owned().concat(
                location_id.as_str(),
            ).concat(" was not found"),
            LocationError::NoneAvailable =>
                "no Gardena locations are available for this application".to_owned(),
            LocationError::Ambiguous { choices } => {
                let start = "multiple Gardena locations are available; set --location-id to one of: ";
                start.to_owned().concat(choices.as_str())
            },
        }
    }
}

/// A location as it is offered for choice.
pub open spec fn offer(location: LocationView) -> Seq<char> {
    location.name + " ("@ + location.id + ")"@
}

/// The locations as they are offered for choice.
pub open spec fn offers(locations: Seq<LocationView>) -> Seq<char> {
    joined(locations.map_values(|location: LocationView| offer(location)), ", "@)
}

/// The first location with an identifier.
pub open spec fn first_with(locations: Seq<LocationView>, id: Seq<char>) -> Option<LocationView>
    decreases locations.len(),
{
    if locations.len() == 0 {
        None
    } else if locations[0].id == id {
        Some(locations[0])
    } else {
        first_with(locations.drop_first(), id)
    }
}

/// The location to export: the first one with the configured identifier, or the only one where
/// none is configured.
pub open spec fn selection(locations: Seq<LocationView>, configured: Option<Seq<char>>) -> Result<
    LocationView,
    LocationErrorView,
> {
    match configured {
        Some(id) => match first_with(locations, id) {
            Some(location) => Ok(location),
            None => Err(LocationErrorView::NotFound { location_id: id }),
        },
        None => if locations.len() == 0 {
            Err(LocationErrorView::NoneAvailable)
        } else if locations.len() == 1 {
            Ok(locations[0])
        } else {
            Err(LocationErrorView::Ambiguous { choices: offers(locations) })
        },
    }
}

proof fn lemma_first_with(locations: Seq<LocationView>, id: Seq<char>, i: int)
    requires
        0 <= i <= locations.len(),
        forall|j: int| 0 <= j < i ==> #[trigger] locations[j].id != id,
    ensures
        i < locations.len() && locations[i].id == id ==> first_with(locations, id) == Some(
            locations[i],
        ),
        i == locations.len() ==> first_with(locations, id) is None,
    decreases locations.len(),
{
    if i > 0 {
        let rest = locations.drop_first();
        assert(locations[0].id != id);
        assert forall|j: int| 0 <= j < i - 1 implies #[trigger] rest[j].id != id by {
            assert(rest[j] == locations[j + 1]);
        }
        lemma_first_with(rest, id, i - 1);
    }
}

/// A location that is chosen is one that is available, and has the configured identifier if
/// there is one. A configured location that is available is chosen.
pub proof fn selection_is_available(locations: Seq<LocationView>, configured: Option<Seq<char>>)
    ensures
        match selection(locations, configured) {
            Ok(location) => locations.contains(location) && (match configured {
                Some(id) => location.id == id,
                None => true,
            }),
            Err(_) => match configured {
                Some(id) => forall|i: int|
                    0 <= i < locations.len() ==> #[trigger] locations[i].id != id,
                None => locations.len() != 1,
            },
        },
    decreases locations.len(),
{
    if let Some(id) = configured {
        if locations.len() > 0 && locations[0].id != id {
            let rest = locations.drop_first();
            selection_is_available(rest, configured);
            if let Some(location) = first_with(rest, id) {
                let i = choose|i: int| 0 <= i < rest.len() && rest[i] == location;
                assert(locations[i + 1] == location);
            } else {
                assert forall|i: int| 0 <= i < locations.len() implies #[trigger] locations[i].id
                    != id by {
                    if i > 0 {
                        assert(rest[i - 1].id != id);
                    }
                }
            }
        }
    }
}

/// What the result of choosing a location says.
pub open spec fn choice(result: Result<LocationSummary, LocationError>) -> Result<
    LocationView,
    LocationErrorView,
> {
    match result {
        Ok(location) => Ok(location@),
        Err(error) => Err(error@),
    }
}

/// Picks the configured location, or the only one that is available.
pub fn select_location(
    locations: &[LocationSummary],
    configured_location_id: Option<&str>,
) -> (result: Result<LocationSummary, LocationError>)
    ensures
        choice(result) == selection(places(locations@), configured_location_id.deep_view()),
{
    let ghost all = places(locations@);
    if let Some(location_id) = configured_location_id {
        let mut i: usize = 0;
        while i < locations.len()
            invariant
                all == places(locations@),
                configured_location_id == Some(location_id),
                i <= locations.len(),
                forall|j: int| 0 <= j < i ==> #[trigger] all[j].id != location_id@,
            decreases locations.len() - i,
        {
            if same(locations[i].id.as_str(), location_id) {
                let found = locations[i].clone();
                proof {
                    lemma_first_with(all, location_id@, i as int);
                }
                return Ok(found);
            }
            i += 1;
        }
        proof {
            lemma_first_with(all, location_id@, i as int);
        }
        return Err(LocationError::NotFound { location_id: location_id.to_owned() });
    }
    if locations.len() == 0 {
        Err(LocationError::NoneAvailable)
    } else if locations.len() == 1 {
        Ok(locations[0].clone())
    } else {
        let mut parts: Vec<String> = Vec::new();
        for i in 0..locations.len()
            invariant
                all == places(locations@),
                parts.len() == i,
                forall|j: int| 0 <= j < i ==> (#[trigger] parts@[j])@ == offer(all[j]),
        {
            parts.push(
                locations[i].name.clone().concat(" (").concat(locations[i].id.as_str()).concat(")"),
            );
        }
        assert(texts(parts@) =~= all.map_values(|location: LocationView| offer(location)));
        Err(LocationError::Ambiguous { choices: join(&parts, ", ") })
    }
}

/// The locations of a list are its resources of the kind `LOCATION`, in their order: one more
/// resource at the end adds itself if it is of that kind, under its identifier and the text under
/// `name`, or else its identifier; any other adds nothing.
pub proof fn locations_are_listed_in_order(
    resources: Seq<LocationResourceView>,
    more: LocationResourceView,
)
    ensures
        listed(Seq::empty()).len() == 0,
        more.kind != "LOCATION"@ ==> listed(resources.push(more)) == listed(resources),
        more.kind == "LOCATION"@ ==> {
            let all = listed(resources.push(more));
            let last = all[all.len() - 1];
            &&& all.len() == listed(resources).len() + 1
            &&& all.drop_last() == listed(resources)
            &&& last.id == more.id
            &&& text_at(more.attributes, "name"@) matches Some(name) ==> last.name == name
            &&& text_at(more.attributes, "name"@) is None ==> last.name == more.id
        },
{
    assert(resources.push(more).drop_last() =~= resources);
    if more.kind == "LOCATION"@ {
        let all = listed(resources.push(more));
        assert(all.drop_last() =~= listed(resources));
    }
}

/// The location that is chosen is the first with the configured identifier. Without one it is the
/// only location; where there is none, or more than one, the error says so, and in the latter
/// case names every location in order by its name and, in brackets, its identifier.
pub proof fn choices_are_as_configured(
    locations: Seq<LocationView>,
    configured: Option<Seq<char>>,
    i: int,
)
    ensures
        configured matches Some(id) ==> (0 <= i < locations.len() && locations[i].id == id && (
        forall|j: int| 0 <= j < i ==> (#[trigger] locations[j]).id != id) ==> selection(
            locations,
            configured,
        ) == Ok::<LocationView, LocationErrorView>(locations[i])),
        configured matches Some(id) ==> ((forall|j: int|
            0 <= j < locations.len() ==> (#[trigger] locations[j]).id != id) ==> selection(
            locations,
            configured,
        ) == Err::<LocationView, LocationErrorView>(
            LocationErrorView::NotFound { location_id: id },
        )),
        configured is None && locations.len() == 0 ==> selection(locations, configured) == Err::<
            LocationView,
            LocationErrorView,
        >(LocationErrorView::NoneAvailable),
        configured is None && locations.len() == 1 ==> selection(locations, configured) == Ok::<
            LocationView,
            LocationErrorView,
        >(locations[0]),
        configured is None && locations.len() > 1 ==> selection(locations, configured) == Err::<
            LocationView,
            LocationErrorView,
        >(
            LocationErrorView::Ambiguous {
                choices: joined(
                    locations.map_values(
                        |location: LocationView| location.name + " ("@ + location.id + ")"@,
                    ),
                    ", "@,
                ),
            },
        ),
{
    if let Some(id) = configured {
        if 0 <= i < locations.len() && locations[i].id == id && (forall|j: int|
            0 <= j < i ==> (#[trigger] locations[j]).id != id) {
            lemma_first_with(locations, id, i);
        }
        if forall|j: int| 0 <= j < locations.len() ==> (#[trigger] locations[j]).id != id {
            lemma_first_with(locations, id, locations.len() as int);
        }
    }
    assert(locations.map_values(|location: LocationView| offer(location))
        =~= locations.map_values(
        |location: LocationView| location.name + " ("@ + location.id + ")"@,
    ));
}

/// What is said where no location was chosen.
pub proof fn location_errors_say_why(text: Seq<char>)
    ensures
        (LocationErrorView::NotFound { location_id: text }).words() == "configured location id "@
            + text + " was not found"@,
        LocationErrorView::NoneAvailable.words()
            == "no Gardena locations are available for this application"@,
        (LocationErrorView::Ambiguous { choices: text }).words()
            == "multiple Gardena locations are available; set --location-id to one of: "@ + text,
{
}

/// What a [`LocationSummary`] says of each of its parts is what the field holds.
pub proof fn locations_say_what_they_hold(location: LocationSummary)
    ensures
        location@.id == location.id@,
        location@.name == location.name@,
{
}

/// What a [`LocationResource`] says of each of its parts is what the field holds.
pub proof fn location_resources_say_what_they_hold(resource: LocationResource)
    ensures
        resource@.id == resource.id@,
        resource@.kind == resource.kind@,
        resource@.attributes == document(resource.attributes),
{
}

/// What a [`LocationListResponse`] says is what its resources say, in their order.
pub proof fn location_lists_say_what_they_hold(response: LocationListResponse)
    ensures
        response@.len() == response.data@.len(),
        forall|i: int|
            0 <= i < response.data@.len() ==> #[trigger] response@[i] == response.data@[i]@,
{
}

}
