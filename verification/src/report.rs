//! What the commands print.
use crate::http::token_url;
use crate::location::LocationSummary;
use crate::text::to_decimal;
use crate::token::TokenResponse;
use crate::valves::ValveSummary;
use vstd::prelude::*;

verus! {

use crate::http::token_url_of;
use crate::location::{places, LocationView};
use crate::text::{decimal, halves, joined, texts};
use crate::token::TokenView;
use crate::valves::{summaries, ValveSummaryView};

/// The lines that tell of a token: its text alone, or all that is known of it.
pub open spec fn token_lines_of(token: TokenView, raw: bool) -> Seq<Seq<char>> {
    if raw {
        seq![token.access_token]
    } else {
        seq![
            "token_type="@ + (match token.token_type {
                Some(token_type) => token_type,
                None => "unknown"@,
            }),
            "expires_in="@ + decimal(
                match token.expires_in {
                    Some(seconds) => seconds as nat,
                    None => 0,
                },
            ),
        ] + (match token.scope {
            Some(scope) => seq!["scope="@ + scope],
            None => Seq::empty(),
        }) + seq!["access_token="@ + token.access_token]
    }
}

/// Tells of a token, line by line.
pub fn token_lines(token: &TokenResponse, raw: bool) -> (lines: Vec<String>)
    ensures
        texts(lines@) == token_lines_of(token@, raw),
        raw ==> lines.len() == 1 && lines@[0]@ == token.access_token@,
        !raw ==> {
            let last = lines@.len() - 1;
            &&& lines.len() == if token.scope is Some {
                4int
            } else {
                3int
            }
            &&& lines@[0]@ == "token_type="@ + (match token.token_type {
                Some(token_type) => token_type@,
                None => "unknown"@,
            })
            &&& lines@[1]@ == "expires_in="@ + (match token.expires_in {
                Some(seconds) => decimal(seconds as nat),
                None => decimal(0),
            })
            &&& token.scope matches Some(scope) ==> lines@[2]@ == "scope="@ + scope@
            &&& lines@[last]@ == "access_token="@ + token.access_token@
        },
{
    let mut lines: Vec<String> = Vec::new();
    if raw {
        lines.push(token.access_token.clone());
    } else {
        let token_type = match &token.token_type {
            Some(token_type) => token_type.as_str(),
            None => "unknown",
        };
        lines.push("token_type=".to_owned().concat(token_type));
        let seconds: u64 = token.expires_in.unwrap_or(0);
        lines.push("expires_in=".to_owned().concat(to_decimal(seconds).as_str()));
        if let Some(scope) = &token.scope {
            lines.push("scope=".to_owned().concat(scope.as_str()));
        }
        lines.push("access_token=".to_owned().concat(token.access_token.as_str()));
    }
    assert(texts(lines@) =~= token_lines_of(token@, raw));
    lines
}

/// The line that tells of a location.
pub open spec fn location_line_of(location: LocationView) -> Seq<char> {
    location.id + "\t"@ + location.name
}

/// Tells of locations, line by line.
pub fn location_lines(locations: &Vec<LocationSummary>) -> (lines: Vec<String>)
    ensures
        texts(lines@) == places(locations@).map_values(
            |location: LocationView| location_line_of(location),
        ),
        lines.len() == locations.len(),
        forall|i: int|
            0 <= i < lines.len() ==> (#[trigger] lines@[i])@ == locations@[i].id@ + "\t"@
                + locations@[i].name@,
{
    let mut lines: Vec<String> = Vec::new();
    for i in 0..locations.len()
        invariant
            lines.len() == i,
            forall|j: int|
                0 <= j < i ==> (#[trigger] lines@[j])@ == location_line_of(locations@[j]@),
    {
        lines.push(locations[i].id.clone().concat("\t").concat(locations[i].name.as_str()));
    }
    assert(texts(lines@) =~= places(locations@).map_values(
        |location: LocationView| location_line_of(location),
    ));
    lines
}

/// The line that tells of a valve.
pub open spec fn valve_line_of(valve: ValveSummaryView) -> Seq<char> {
    valve.location_id + "\t"@ + valve.location_name + "\t"@ + valve.device_id + "\t"@
        + valve.controller_name + "\t"@ + valve.service_id + "\t"@ + valve.valve_name
}

/// The lines that tell of valves, below the names of the columns.
pub open spec fn valve_lines_of(valves: Seq<ValveSummaryView>) -> Seq<Seq<char>> {
    seq!["location_id\tlocation\tdevice_id\tcontroller_name\tservice_id\tvalve_name"@]
        + valves.map_values(|valve: ValveSummaryView| valve_line_of(valve))
}

/// Tells of valves, line by line, below the names of the columns.
pub fn valve_lines(valves: &Vec<ValveSummary>) -> (lines: Vec<String>)
    ensures
        texts(lines@) == valve_lines_of(summaries(valves@)),
        lines.len() == valves.len() + 1,
        lines@[0]@ == "location_id\tlocation\tdevice_id\tcontroller_name\tservice_id\tvalve_name"@,
        forall|i: int|
            1 <= i < lines.len() ==> (#[trigger] lines@[i])@ == valves@[i - 1].location_id@ + "\t"@
                + valves@[i - 1].location_name@ + "\t"@ + valves@[i - 1].device_id@ + "\t"@
                + valves@[i - 1].controller_name@ + "\t"@ + valves@[i - 1].service_id@ + "\t"@
                + valves@[i - 1].valve_name@,
{
    let header = "location_id\tlocation\tdevice_id\tcontroller_name\tservice_id\tvalve_name";
    let mut lines: Vec<String> = Vec::new();
    lines.push(header.to_owned());
    for i in 0..valves.len()
        invariant
            lines.len() == i + 1,
            lines@[0]@ == header@,
            forall|j: int|
                1 <= j < i + 1 ==> (#[trigger] lines@[j])@ == valve_line_of(valves@[j - 1]@),
    {
        let valve = &valves[i];
        lines.push(
            valve.location_id.clone().concat("\t").concat(valve.location_name.as_str()).concat(
                "\t",
            ).concat(valve.device_id.as_str()).concat("\t").concat(
                valve.controller_name.as_str(),
            ).concat("\t").concat(valve.service_id.as_str()).concat("\t").concat(
                valve.valve_name.as_str(),
            ),
        );
    }
    assert(texts(lines@) =~= valve_lines_of(summaries(valves@)));
    lines
}

/// The command that obtains a token without the exporter, on two lines.
pub open spec fn token_curl_of(auth_url: Seq<char>) -> Seq<char> {
    "curl -fsSL -X POST -d \"grant_type=client_credentials"@
        + "&client_id=$GARDENA_APPLICATION_KEY"@
        + "&client_secret=$GARDENA_APPLICATION_SECRET\" \\\n  "@ + token_url_of(auth_url)
}

/// Writes the command that obtains a token without the exporter, on two lines.
pub fn token_curl(auth_url: &str) -> (command: String)
    ensures
        command@ == token_curl_of(auth_url@),
        command@ == "curl -fsSL -X POST -d \"grant_type=client_credentials"@
            + "&client_id=$GARDENA_APPLICATION_KEY"@
            + "&client_secret=$GARDENA_APPLICATION_SECRET\" \\\n  "@ + token_url_of(auth_url@),
{
    "curl -fsSL -X POST -d \"grant_type=client_credentials".to_owned().concat(
        "&client_id=$GARDENA_APPLICATION_KEY",
    ).concat("&client_secret=$GARDENA_APPLICATION_SECRET\" \\\n  ").concat(
        token_url(auth_url).as_str(),
    )
}

/// The line of a location can be read back: before the first tabulator stands the identifier,
/// which has none itself, and behind it the name.
pub proof fn location_lines_can_be_read_back(location: LocationView)
    requires
        !location.id.contains('\t'),
    ensures
        halves(location_line_of(location), '\t') == Some((location.id, location.name)),
{
    reveal_strlit("\t");
    let line = location_line_of(location);
    let at = location.id.len() as int;
    assert(line[at] == '\t');
    assert(line.contains('\t'));
    line.index_of_first_ensures('\t');
    assert forall|i: int| 0 <= i < at implies line[i] != '\t' by {
        assert(location.id.contains(location.id[i]));
    }
    assert(line.index_of_first('\t') == Some(at));
    assert(line.take(at) =~= location.id);
    assert(line.skip(at + 1) =~= location.name);
}

/// The columns of a valve are its location, its device and itself, each by identifier and then by
/// name, with a tabulator between neighbours.
pub proof fn valve_lines_have_six_columns(valve: ValveSummaryView)
    ensures
        valve_line_of(valve) == joined(
            seq![
                valve.location_id,
                valve.location_name,
                valve.device_id,
                valve.controller_name,
                valve.service_id,
                valve.valve_name,
            ],
            "\t"@,
        ),
{
    let columns = seq![
        valve.location_id,
        valve.location_name,
        valve.device_id,
        valve.controller_name,
        valve.service_id,
        valve.valve_name,
    ];
    assert(columns.take(6) =~= columns);
    assert forall|n: int| 1 < n <= 6 implies #[trigger] columns.take(n).drop_last() == columns.take(
        n - 1,
    ) by {
        assert(columns.take(n).drop_last() =~= columns.take(n - 1));
    }
    assert(joined(columns.take(1), "\t"@) == columns[0]);
    assert(joined(columns.take(2), "\t"@) == joined(columns.take(1), "\t"@) + "\t"@ + columns[1]);
    assert(joined(columns.take(3), "\t"@) == joined(columns.take(2), "\t"@) + "\t"@ + columns[2]);
    assert(joined(columns.take(4), "\t"@) == joined(columns.take(3), "\t"@) + "\t"@ + columns[3]);
    assert(joined(columns.take(5), "\t"@) == joined(columns.take(4), "\t"@) + "\t"@ + columns[4]);
    assert(joined(columns.take(6), "\t"@) == joined(columns.take(5), "\t"@) + "\t"@ + columns[5]);
}

}
