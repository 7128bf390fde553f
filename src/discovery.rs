//! Device records and the decisions of an SSDP scan: the queries sent, how a
//! reply becomes a record, deduplication by address, and the read deadline.
use vstd::prelude::*;
use crate::ssdp::{extract_header, header_value, identify_brand, vendor_of, Vendor};
use crate::text::{has_substring, lower_of};

verus! {

/// How long a scan listens for replies, in milliseconds.
pub const SEARCH_WINDOW_MS: u64 = 3000;

/// The multicast group and port that discovery queries go to.
pub const SSDP_MULTICAST_ADDR: &'static str = "239.255.255.250:1900";

/// One device that answered a scan.
#[derive(Clone, Debug)]
pub struct TVDevice {
    /// The unique service name the device gave; may be empty.
    pub id: String,
    /// The server string the device gave, as a readable label.
    pub name: String,
    /// The address the reply came from.
    pub ip: String,
    /// The description URL the device advertised.
    pub location: String,
    /// The vendor label derived from the server string.
    pub model: String,
}

/// A device record as plain sequences.
pub struct DeviceView {
    pub id: Seq<char>,
    pub name: Seq<char>,
    pub ip: Seq<char>,
    pub location: Seq<char>,
    pub model: Seq<char>,
}

impl View for TVDevice {
    type V = DeviceView;

    open spec fn view(&self) -> DeviceView {
        DeviceView {
            id: self.id@,
            name: self.name@,
            ip: self.ip@,
            location: self.location@,
            model: self.model@,
        }
    }
}

/// The label used when a reply names no server.
pub open spec fn unnamed_server() -> Seq<char> {
    "Dispositivo Genérico"@
}

/// The server string of a reply: `SERVER`, else `USER-AGENT`, else a
/// fixed label.
pub open spec fn server_of(response: Seq<char>) -> Seq<char> {
    match header_value(response, "SERVER"@) {
        Some(v) => v,
        None => match header_value(response, "USER-AGENT"@) {
            Some(v) => v,
            None => unnamed_server(),
        },
    }
}

/// The record that a reply from `ip` yields: none without a `LOCATION`
/// header.
pub open spec fn reply_device(response: Seq<char>, ip: Seq<char>) -> Option<DeviceView> {
    match header_value(response, "LOCATION"@) {
        None => None,
        Some(location) => Some(
            DeviceView {
                id: match header_value(response, "USN"@) {
                    Some(v) => v,
                    None => Seq::empty(),
                },
                name: server_of(response),
                ip,
                location,
                model: vendor_of(server_of(response)).spec_label(),
            },
        ),
    }
}

/// Whether some record in `devs` has address `ip`.
pub open spec fn has_ip(devs: Seq<DeviceView>, ip: Seq<char>) -> bool {
    exists|i: int| 0 <= i < devs.len() && (#[trigger] devs[i]).ip == ip
}

/// Whether no two records in `devs` share an address.
pub open spec fn distinct_ips(devs: Seq<DeviceView>) -> bool {
    forall|i: int, j: int| 0 <= i < j < devs.len() ==> (#[trigger] devs[i]).ip != (#[trigger] devs[j]).ip
}

/// The records after a reply from `ip`: a new address adds its record at
/// the end, an address already seen changes nothing.
pub open spec fn after_reply(devs: Seq<DeviceView>, response: Seq<char>, ip: Seq<char>) -> Seq<DeviceView> {
    match reply_device(response, ip) {
        Some(d) => if has_ip(devs, ip) {
            devs
        } else {
            devs.push(d)
        },
        None => devs,
    }
}

/// The text of a discovery query for search target `target`.
pub open spec fn msearch(target: Seq<char>) -> Seq<char> {
    "M-SEARCH * HTTP/1.1\r\nHOST: 239.255.255.250:1900\r\nMAN: \"ssdp:discover\"\r\nMX: 2\r\nST: "@
        + target + "\r\n\r\n"@
}

/// The discovery query for search target `target`.
pub fn search_request(target: &str) -> (r: String)
    ensures
        r@ == msearch(target@),
{
    let head = String::from_str(
        "M-SEARCH * HTTP/1.1\r\nHOST: 239.255.255.250:1900\r\nMAN: \"ssdp:discover\"\r\nMX: 2\r\nST: ",
    );
    head.concat(target).concat("\r\n\r\n")
}

/// The queries a scan sends: one for every service, one for root devices.
pub fn search_requests() -> (r: Vec<String>)
    ensures
        r@.len() == 2,
        r@[0]@ == msearch("ssdp:all"@),
        r@[1]@ == msearch("upnp:rootdevice"@),
{
    let mut r: Vec<String> = Vec::new();
    r.push(search_request("ssdp:all"));
    r.push(search_request("upnp:rootdevice"));
    r
}

/// The record that a reply from `ip` yields, if it names a location.
pub fn parse_ssdp_response(response: &str, ip: String) -> (r: Option<TVDevice>)
    ensures
        match r {
            Some(d) => reply_device(response@, ip@) == Some(d@),
            None => reply_device(response@, ip@) is None,
        },
{
    let location = match extract_header(response, "LOCATION") {
        Some(v) => v,
        None => return None,
    };
    let id = match extract_header(response, "USN") {
        Some(v) => v,
        None => String::new(),
    };
    let server = match extract_header(response, "SERVER") {
        Some(v) => v,
        None => match extract_header(response, "USER-AGENT") {
            Some(v) => v,
            None => String::from_str("Dispositivo Genérico"),
        },
    };
    let model = identify_brand(server.as_str());
    Some(TVDevice { id, name: server, ip, location, model })
}

/// What a scan does next.
pub enum ScanStep {
    /// Wait for one reply, at most this many milliseconds.
    Listen { wait_ms: u64 },
    /// The window has closed: stop listening.
    Done,
}

/// The state of one scan: the records so far and the end of its window.
pub struct Scan {
    devices: Vec<TVDevice>,
    deadline_ms: u64,
}

impl View for Scan {
    type V = Seq<DeviceView>;

    closed spec fn view(&self) -> Seq<DeviceView> {
        self.devices@.map_values(|d: TVDevice| d@)
    }
}

impl Scan {
    /// The end of the listening window, in milliseconds from the start.
    pub closed spec fn deadline(&self) -> u64 {
        self.deadline_ms
    }

    pub open spec fn wf(&self) -> bool {
        distinct_ips(self@)
    }

    /// A scan that has heard nothing yet.
    pub fn new() -> (r: Scan)
        ensures
            r.wf(),
            r@ == Seq::<DeviceView>::empty(),
            r.deadline() == SEARCH_WINDOW_MS,
    {
        let r = Scan { devices: Vec::new(), deadline_ms: SEARCH_WINDOW_MS };
        assert(r@ =~= Seq::<DeviceView>::empty());
        r
    }

    /// What to do `elapsed_ms` after the scan began: each read is bounded
    /// by what is left of the window, and none starts after it.
    pub fn next_step(&self, elapsed_ms: u64) -> (r: ScanStep)
        ensures
            elapsed_ms >= self.deadline() ==> r is Done,
            elapsed_ms < self.deadline() ==> r == (ScanStep::Listen {
                wait_ms: (self.deadline() - elapsed_ms) as u64,
            }),
    {
        if elapsed_ms >= self.deadline_ms {
            ScanStep::Done
        } else {
            ScanStep::Listen { wait_ms: self.deadline_ms - elapsed_ms }
        }
    }

    /// Takes in one reply received from `ip`.
    pub fn on_reply(&mut self, response: &str, ip: String)
        requires
            old(self).wf(),
        ensures
            final(self).wf(),
            final(self)@ == after_reply(old(self)@, response@, ip@),
            final(self).deadline() == old(self).deadline(),
    {
        let ghost before = self@;
        let found = parse_ssdp_response(response, ip);
        if let Some(d) = found {
            let mut i: usize = 0;
            while i < self.devices.len()
                invariant
                    self@ == before,
                    distinct_ips(before),
                    i <= self.devices@.len(),
                    d@.ip == ip@,
                    forall|k: int| 0 <= k < i ==> (#[trigger] before[k]).ip != d@.ip,
                decreases self.devices@.len() - i,
            {
                if self.devices[i].ip == d.ip {
                    assert(before[i as int].ip == ip@);
                    return;
                }
                i = i + 1;
            }
            assert(!has_ip(before, ip@));
            self.devices.push(d);
            assert(self@ =~= before.push(d@));
        }
    }

    /// The records, in the order their devices first answered.
    pub fn into_devices(self) -> (r: Vec<TVDevice>)
        ensures
            r@.map_values(|d: TVDevice| d@) == self@,
    {
        self.devices
    }
}

/// Deduplication: two replies from one address, whatever their service
/// names, leave exactly one record for that address, the one the first
/// reply gave.
pub proof fn lemma_first_reply_wins(
    devs: Seq<DeviceView>,
    first: Seq<char>,
    second: Seq<char>,
    ip: Seq<char>,
)
    requires
        distinct_ips(devs),
        !has_ip(devs, ip),
        reply_device(first, ip) is Some,
        reply_device(second, ip) is Some,
    ensures
        ({
            let after = after_reply(after_reply(devs, first, ip), second, ip);
            &&& after == devs.push(reply_device(first, ip).unwrap())
            &&& distinct_ips(after)
            &&& after.last() == reply_device(first, ip).unwrap()
            &&& forall|i: int| 0 <= i < after.len() && (#[trigger] after[i]).ip == ip ==> i == after.len() - 1
        }),
{
    let d = reply_device(first, ip).unwrap();
    let one = after_reply(devs, first, ip);
    assert(one == devs.push(d));
    assert(one[devs.len() as int].ip == ip);
    assert(has_ip(one, ip));
    assert forall|i: int| 0 <= i < one.len() && (#[trigger] one[i]).ip == ip implies i == one.len() - 1 by {
        if i < devs.len() {
            assert(devs[i] == one[i]);
        }
    }
    assert forall|i: int, j: int| 0 <= i < j < one.len() implies (#[trigger] one[i]).ip != (#[trigger] one[j]).ip by {
        if j < devs.len() {
            assert(devs[i] == one[i] && devs[j] == one[j]);
        } else {
            assert(devs[i] == one[i]);
        }
    }
}

/// Classification: a server string whose lower-case form holds "tizen" is
/// Samsung; one whose lower-case form holds "webos" is LG unless it also
/// holds "samsung" or "tizen"; one whose lower-case form matches no rule is
/// Unknown.
pub proof fn lemma_classification(server: Seq<char>)
    ensures
        has_substring(lower_of(server), "tizen"@) ==> vendor_of(server) == Vendor::Samsung,
        has_substring(lower_of(server), "webos"@) && !has_substring(lower_of(server), "samsung"@)
            && !has_substring(lower_of(server), "tizen"@) ==> vendor_of(server) == Vendor::Lg,
        ({
            let l = lower_of(server);
            !has_substring(l, "samsung"@) && !has_substring(l, "tizen"@) && !has_substring(l, "lg"@)
                && !has_substring(l, "webos"@) && !has_substring(l, "roku"@) && !has_substring(
                l,
                "android"@,
            ) && !has_substring(l, "google"@) && !has_substring(l, "linux"@)
        }) ==> vendor_of(server) == Vendor::Unknown,
{
}

} // verus!
