//! The pairing handshake: deciding inbound pairing requests, preparing
//! outbound ones, and completing them against the peer's answer.
//!
//! The embedding application moves the length-prefixed packets over TCP;
//! every decision — whether to accept, which PIN to echo, whether the
//! returned PIN matches, what enters the paired set — is made here.

use vstd::prelude::*;
use crate::crypto::CryptoManager;
use crate::errors::Error;
use crate::support;
use crate::text::str_eq;
use crate::types::{AuthRequestPacket, DeviceInfo, PairingStatus};

verus! {

/// The TCP port the pairing listener binds.
pub const PAIRING_PORT: u16 = 45680;

/// Answer to a pairing request, sent back length-prefixed.
#[derive(Debug, Clone)]
pub struct PairingResponse {
    /// Whether the request was accepted.
    pub accepted: bool,
    /// The PIN echoed back to the initiator; empty when none applies.
    pub pin: String,
}

/// One row of the paired set changed: the first row whose id matches,
/// every other row untouched.
pub open spec fn paired_changed_first(
    olds: Seq<DeviceInfo>,
    news: Seq<DeviceInfo>,
    id: Seq<char>,
    i: int,
) -> bool {
    &&& 0 <= i < olds.len()
    &&& olds[i].id@ == id
    &&& (forall|j: int| 0 <= j < i ==> olds[j].id@ != id)
    &&& news.len() == olds.len()
    &&& (forall|j: int| 0 <= j < olds.len() && j != i ==> news[j] == olds[j])
}

/// The paired set was upserted with `d`: a row with its id replaced in
/// place, or `d` appended when no row had its id.
pub open spec fn paired_upserted(
    olds: Seq<DeviceInfo>,
    news: Seq<DeviceInfo>,
    d: DeviceInfo,
) -> bool {
    if exists|i: int| 0 <= i < olds.len() && (#[trigger] olds[i]).id@ == d.id@ {
        exists|i: int|
            {
                &&& #[trigger] paired_changed_first(olds, news, d.id@, i)
                &&& news[i] == d
            }
    } else {
        news == olds.push(d)
    }
}

/// The pairing manager: the local device's identity, the set of paired
/// devices, and the PINs of pairings awaiting the peer's answer.
pub struct PairingManager {
    local_device: DeviceInfo,
    paired_devices: Vec<DeviceInfo>,
    awaiting_pairing: Vec<(String, String)>,
}

impl PairingManager {
    /// The local device record, for contracts.
    pub closed spec fn local(self) -> DeviceInfo {
        self.local_device
    }

    /// The paired set, for contracts.
    pub closed spec fn paired_view(self) -> Seq<DeviceInfo> {
        self.paired_devices@
    }

    /// The awaiting table, id and PIN pairs, for contracts.
    pub closed spec fn awaiting_view(self) -> Seq<(String, String)> {
        self.awaiting_pairing@
    }

    /// Whether a device id is in the paired set.
    pub open spec fn is_paired(self, id: Seq<char>) -> bool {
        exists|i: int|
            0 <= i < self.paired_view().len() && (#[trigger] self.paired_view()[i]).id@ == id
    }

    /// Whether a pairing with the device id awaits the peer's answer.
    pub open spec fn is_awaiting(self, id: Seq<char>) -> bool {
        exists|i: int|
            0 <= i < self.awaiting_view().len() && (#[trigger] self.awaiting_view()[i]).0@ == id
    }

    /// Fresh manager with empty paired and awaiting sets.
    pub fn new(local_device: DeviceInfo) -> (r: Self)
        ensures
            r.local() == local_device,
            r.paired_view().len() == 0,
            r.awaiting_view().len() == 0,
    {
        PairingManager {
            local_device,
            paired_devices: Vec::new(),
            awaiting_pairing: Vec::new(),
        }
    }

    /// Six-digit PIN for one pairing attempt, zero-padded, drawn uniformly
    /// below one million.
    pub fn generate_pin() -> (r: String)
        ensures
            r@.len() == 6,
            forall|i: int| 0 <= i < 6 ==> '0' <= #[trigger] r@[i] <= '9',
    {
        let n = support::random_u32_in(0, 1000000);
        crate::crypto::format_six_digits(n)
    }

    /// Index of the first awaiting row with the id, if any.
    fn index_of_awaiting(&self, id: &str) -> (r: Option<usize>)
        ensures
            (match r {
                Some(i) => {
                    &&& i < self.awaiting_view().len()
                    &&& self.awaiting_view()[i as int].0@ == id@
                    &&& (forall|j: int| 0 <= j < i ==> self.awaiting_view()[j].0@ != id@)
                },
                None => forall|j: int|
                    0 <= j < self.awaiting_view().len() ==> (#[trigger] self.awaiting_view()[j]).0@
                        != id@,
            }),
    {
        let n = self.awaiting_pairing.len();
        let mut i: usize = 0;
        while i < n
            invariant
                n == self.awaiting_pairing@.len(),
                i <= n,
                forall|j: int| 0 <= j < i ==> (#[trigger] self.awaiting_pairing@[j]).0@ != id@,
            decreases n - i,
        {
            if str_eq(self.awaiting_pairing[i].0.as_str(), id) {
                return Some(i);
            }
            i = i + 1;
        }
        None
    }

    /// Index of the first paired row with the id, if any.
    fn index_of_paired(&self, id: &str) -> (r: Option<usize>)
        ensures
            (match r {
                Some(i) => {
                    &&& i < self.paired_view().len()
                    &&& self.paired_view()[i as int].id@ == id@
                    &&& (forall|j: int| 0 <= j < i ==> self.paired_view()[j].id@ != id@)
                },
                None => forall|j: int|
                    0 <= j < self.paired_view().len() ==> (#[trigger] self.paired_view()[j]).id@
                        != id@,
            }),
    {
        let n = self.paired_devices.len();
        let mut i: usize = 0;
        while i < n
            invariant
                n == self.paired_devices@.len(),
                i <= n,
                forall|j: int| 0 <= j < i ==> (#[trigger] self.paired_devices@[j]).id@ != id@,
            decreases n - i,
        {
            if str_eq(self.paired_devices[i].id.as_str(), id) {
                return Some(i);
            }
            i = i + 1;
        }
        None
    }

    /// Records the PIN for a pairing attempt with the device id, replacing
    /// any earlier one.
    fn record_awaiting(&mut self, device_id: &str, pin: &String)
        ensures
            final(self).is_awaiting(device_id@),
            final(self).awaiting_pin(device_id@) == Some(pin@),
            forall|id: Seq<char>|
                id != device_id@ ==> final(self).awaiting_pin(id) == old(self).awaiting_pin(id)
                    && (final(self).is_awaiting(id) == old(self).is_awaiting(id)),
            final(self).local() == old(self).local(),
            final(self).paired_view() == old(self).paired_view(),
    {
        let entry = (device_id.to_owned(), pin.clone());
        match self.index_of_awaiting(device_id) {
            Some(i) => {
                let ghost olds = self.awaiting_pairing@;
                self.awaiting_pairing[i] = entry;
                proof {
                    let news = self.awaiting_pairing@;
                    assert(news[i as int].0@ == device_id@);
                    assert forall|id: Seq<char>| id != device_id@ implies Self::spec_pin_in(
                        news,
                        id,
                    ) == Self::spec_pin_in(olds, id) && (Self::spec_first_awaiting(news, id)
                        == Self::spec_first_awaiting(olds, id)) by {
                        Self::lemma_pin_update(olds, news, i as int, id);
                    }
                    Self::lemma_pin_at(news, device_id@, i as int);
                }
            },
            None => {
                let ghost olds = self.awaiting_pairing@;
                self.awaiting_pairing.push(entry);
                proof {
                    let news = self.awaiting_pairing@;
                    assert(news[olds.len() as int].0@ == device_id@);
                    Self::lemma_pin_at(news, device_id@, olds.len() as int);
                    assert forall|id: Seq<char>| id != device_id@ implies Self::spec_pin_in(
                        news,
                        id,
                    ) == Self::spec_pin_in(olds, id) && (Self::spec_first_awaiting(news, id)
                        == Self::spec_first_awaiting(olds, id)) by {
                        Self::lemma_pin_push(olds, news[olds.len() as int], id);
                    }
                }
            },
        }
    }

    /// First index with the id in an awaiting table, if any.
    pub open spec fn spec_first_awaiting(s: Seq<(String, String)>, id: Seq<char>) -> bool {
        exists|i: int| 0 <= i < s.len() && (#[trigger] s[i]).0@ == id
    }

    /// The PIN recorded for the id in an awaiting table: the first row's.
    pub closed spec fn spec_pin_in(s: Seq<(String, String)>, id: Seq<char>) -> Option<Seq<char>>
        decreases s.len(),
    {
        if s.len() == 0 {
            None
        } else if s[0].0@ == id {
            Some(s[0].1@)
        } else {
            Self::spec_pin_in(s.drop_first(), id)
        }
    }

    /// The PIN awaiting the device id, if any.
    pub open spec fn awaiting_pin(self, id: Seq<char>) -> Option<Seq<char>> {
        Self::spec_pin_in(self.awaiting_view(), id)
    }

    proof fn lemma_pin_at(s: Seq<(String, String)>, id: Seq<char>, i: int)
        requires
            0 <= i < s.len(),
            s[i].0@ == id,
            forall|j: int| 0 <= j < i ==> s[j].0@ != id,
        ensures
            Self::spec_pin_in(s, id) == Some(s[i].1@),
            Self::spec_first_awaiting(s, id),
        decreases s.len(),
    {
        if i > 0 {
            Self::lemma_pin_at(s.drop_first(), id, i - 1);
        }
    }

    proof fn lemma_pin_none(s: Seq<(String, String)>, id: Seq<char>)
        requires
            forall|j: int| 0 <= j < s.len() ==> s[j].0@ != id,
        ensures
            Self::spec_pin_in(s, id) is None,
        decreases s.len(),
    {
        if s.len() > 0 {
            Self::lemma_pin_none(s.drop_first(), id);
        }
    }

    proof fn lemma_pin_update(
        olds: Seq<(String, String)>,
        news: Seq<(String, String)>,
        i: int,
        id: Seq<char>,
    )
        requires
            0 <= i < olds.len(),
            news.len() == olds.len(),
            forall|j: int| 0 <= j < olds.len() && j != i ==> news[j] == olds[j],
            news[i].0@ == olds[i].0@,
            id != olds[i].0@,
        ensures
            Self::spec_pin_in(news, id) == Self::spec_pin_in(olds, id),
            Self::spec_first_awaiting(news, id) == Self::spec_first_awaiting(olds, id),
        decreases olds.len(),
    {
        if i == 0 {
            assert(news[0].0@ == olds[0].0@);
            assert(news.drop_first() =~= olds.drop_first());
        } else {
            assert(news[0] == olds[0]);
            if news[0].0@ != id {
                assert(forall|j: int|
                    0 <= j < olds.drop_first().len() && j != i - 1 ==> news.drop_first()[j]
                        == olds.drop_first()[j]);
                assert(news.drop_first()[i - 1].0@ == olds.drop_first()[i - 1].0@);
                Self::lemma_pin_update(olds.drop_first(), news.drop_first(), i - 1, id);
            } else {
                assert(Self::spec_first_awaiting(news, id));
                assert(Self::spec_first_awaiting(olds, id));
            }
        }
        if Self::spec_first_awaiting(news, id) {
            let w = choose|k: int| 0 <= k < news.len() && (#[trigger] news[k]).0@ == id;
            assert(olds[w].0@ == id);
            assert(Self::spec_first_awaiting(olds, id));
        }
        if Self::spec_first_awaiting(olds, id) {
            let w = choose|k: int| 0 <= k < olds.len() && (#[trigger] olds[k]).0@ == id;
            assert(news[w].0@ == id);
            assert(Self::spec_first_awaiting(news, id));
        }
    }

    proof fn lemma_pin_push(s: Seq<(String, String)>, item: (String, String), id: Seq<char>)
        requires
            item.0@ != id,
        ensures
            Self::spec_pin_in(s.push(item), id) == Self::spec_pin_in(s, id),
            Self::spec_first_awaiting(s.push(item), id) == Self::spec_first_awaiting(s, id),
        decreases s.len(),
    {
        let p = s.push(item);
        if s.len() == 0 {
            assert(p[0] == item);
            assert(p.drop_first() =~= Seq::<(String, String)>::empty());
            assert(Self::spec_pin_in(p.drop_first(), id) is None);
        } else {
            assert(p[0] == s[0]);
            if s[0].0@ != id {
                assert(p.drop_first() =~= s.drop_first().push(item));
                Self::lemma_pin_push(s.drop_first(), item, id);
            }
        }
        if Self::spec_first_awaiting(p, id) {
            let w = choose|k: int| 0 <= k < p.len() && (#[trigger] p[k]).0@ == id;
            assert(w < s.len() && s[w].0@ == id);
            assert(Self::spec_first_awaiting(s, id));
        }
        if Self::spec_first_awaiting(s, id) {
            let w = choose|k: int| 0 <= k < s.len() && (#[trigger] s[k]).0@ == id;
            assert(p[w].0@ == id);
            assert(Self::spec_first_awaiting(p, id));
        }
    }

    /// Prepares an outbound pairing request to `device`: a fresh PIN is
    /// generated and recorded as awaiting, and a signed request packet is
    /// built for the wire.  A device already paired is refused, and a
    /// device whose address is unknown is refused after the PIN was
    /// recorded, as a retry may reach it later.
    pub fn begin_pairing(&mut self, device: &DeviceInfo, crypto: &CryptoManager) -> (r: Result<
        (AuthRequestPacket, String),
        Error,
    >)
        requires
            crypto.wf(),
        ensures
            old(self).is_paired(device.id@) ==> (r matches Err(e) && e matches Error::Pairing(_))
                && *final(self) == *old(self),
            !old(self).is_paired(device.id@) ==> {
                &&& final(self).is_awaiting(device.id@)
                &&& final(self).paired_view() == old(self).paired_view()
                &&& final(self).local() == old(self).local()
                &&& (forall|id: Seq<char>|
                    id != device.id@ ==> final(self).awaiting_pin(id) == old(self).awaiting_pin(
                        id,
                    ))
            },
            !old(self).is_paired(device.id@) && device.ip_address is None ==> (r matches Err(e)
                && e matches Error::Pairing(_)),
            !old(self).is_paired(device.id@) && device.ip_address is Some ==> (r matches Ok(out)
                && {
                let (packet, pin) = out;
                &&& packet.packet_type@ == "pairing_request"@
                &&& packet.device_id == old(self).local().id
                &&& packet.nonce@.len() == 36
                &&& packet.signature@ == crate::crypto::b64_of(
                    crate::crypto::sign_bytes(
                        vstd::utf8::encode_utf8(old(self).local().id@),
                        crypto.sign_secret(),
                    ),
                )
                &&& pin@.len() == 6
                &&& final(self).awaiting_pin(device.id@) == Some(pin@)
            }),
    {
        if self.index_of_paired(device.id.as_str()).is_some() {
            return Err(Error::Pairing("device already paired".to_owned()));
        }
        let pin = Self::generate_pin();
        self.record_awaiting(device.id.as_str(), &pin);
        if device.ip_address.is_none() {
            return Err(Error::Pairing("device address unknown".to_owned()));
        }
        let signature = match crate::crypto::sign(
            crypto,
            self.local_device.id.as_str(),
            self.local_device.public_key.as_str(),
        ) {
            Ok(s) => s,
            Err(e) => {
                return Err(e);
            },
        };
        let packet = AuthRequestPacket {
            packet_type: "pairing_request".to_owned(),
            device_id: self.local_device.id.clone(),
            nonce: support::new_uuid_string(),
            signature,
        };
        Ok((packet, pin))
    }

    /// Completes an outbound pairing against the peer's answer.  A
    /// rejection is a pairing error.  An accepted answer whose PIN differs
    /// from the one generated locally is a pairing error, and the device
    /// does not enter the paired set.  On a matching PIN the device enters
    /// the paired set, marked paired and trusted, and the stored record is
    /// returned for the status callback.
    pub fn complete_pairing(&mut self, device: &DeviceInfo, pin: &str, response: &PairingResponse)
        -> (r: Result<DeviceInfo, Error>)
        ensures
            !response.accepted ==> (r matches Err(e) && e matches Error::Pairing(_)) && *final(self) == *old(self),
            response.accepted && response.pin@ != pin@ ==> (r matches Err(e) && e matches
                Error::Pairing(_)) && *final(self) == *old(self),
            response.accepted && response.pin@ == pin@ ==> (r matches Ok(d) && {
                &&& d.id == device.id
                &&& d.name == device.name
                &&& d.public_key == device.public_key
                &&& d.pairing_status == PairingStatus::Paired
                &&& d.trusted == true
                &&& paired_upserted(old(self).paired_view(), final(self).paired_view(), d)
                &&& final(self).is_paired(device.id@)
                &&& final(self).awaiting_view() == old(self).awaiting_view()
                &&& final(self).local() == old(self).local()
            }),
    {
        if !response.accepted {
            return Err(Error::Pairing("peer rejected the pairing request".to_owned()));
        }
        if !str_eq(response.pin.as_str(), pin) {
            return Err(Error::Pairing("PIN verification failed".to_owned()));
        }
        let mut device_info = device.clone();
        device_info.pairing_status = PairingStatus::Paired;
        device_info.trusted = true;
        let stored = device_info.clone();
        match self.index_of_paired(device.id.as_str()) {
            Some(i) => {
                let ghost olds = self.paired_devices@;
                self.paired_devices[i] = device_info;
                proof {
                    let news = self.paired_devices@;
                    assert(news[i as int] == stored);
                    assert(paired_changed_first(olds, news, stored.id@, i as int));
                    assert(paired_upserted(olds, news, stored));
                }
            },
            None => {
                let ghost olds = self.paired_devices@;
                self.paired_devices.push(device_info);
                proof {
                    let news = self.paired_devices@;
                    assert(news =~= olds.push(stored));
                    assert(!(exists|i: int|
                        0 <= i < olds.len() && (#[trigger] olds[i]).id@ == stored.id@));
                    assert(news[olds.len() as int].id@ == device.id@);
                }
            },
        }
        Ok(stored)
    }

    /// Decides one inbound pairing request.  A device already paired is
    /// accepted again without change — re-pairing is idempotent and grows
    /// nothing.  A device this side is awaiting pairing with is accepted
    /// and its recorded PIN echoed back, and the new paired record is
    /// returned for the status callback.  Any other request is rejected.
    pub fn handle_pairing_request(&mut self, request: &AuthRequestPacket) -> (r: (
        PairingResponse,
        Option<DeviceInfo>,
    ))
        ensures
            final(self).local() == old(self).local(),
            final(self).awaiting_view() == old(self).awaiting_view(),
            old(self).is_paired(request.device_id@) ==> {
                &&& r.0.accepted == true
                &&& r.0.pin@ == Seq::<char>::empty()
                &&& r.1 is None
                &&& final(self).paired_view() == old(self).paired_view()
            },
            !old(self).is_paired(request.device_id@) ==> (old(self).awaiting_pin(
                request.device_id@,
            ) matches Some(p) ==> {
                &&& r.0.accepted == true
                &&& r.0.pin@ == p
                &&& (r.1 matches Some(d) && {
                    &&& d.id@ == request.device_id@
                    &&& d.pairing_status == PairingStatus::Paired
                    &&& d.trusted == true
                    &&& final(self).paired_view() == old(self).paired_view().push(d)
                })
            }),
            !old(self).is_paired(request.device_id@) && old(self).awaiting_pin(request.device_id@)
                is None ==> {
                &&& r.0.accepted == false
                &&& r.0.pin@ == Seq::<char>::empty()
                &&& r.1 is None
                &&& final(self).paired_view() == old(self).paired_view()
            },
    {
        if self.index_of_paired(request.device_id.as_str()).is_some() {
            return (PairingResponse { accepted: true, pin: String::new() }, None);
        }
        let idx = match self.index_of_awaiting(request.device_id.as_str()) {
            Some(i) => i,
            None => {
                proof {
                    Self::lemma_pin_none(self.awaiting_pairing@, request.device_id@);
                }
                return (PairingResponse { accepted: false, pin: String::new() }, None);
            },
        };
        proof {
            Self::lemma_pin_at(self.awaiting_pairing@, request.device_id@, idx as int);
        }
        let pin = self.awaiting_pairing[idx].1.clone();
        let mut device_info = DeviceInfo::new("远程设备", crate::types::DeviceType::Unknown, "placeholder");
        device_info.id = request.device_id.clone();
        device_info.pairing_status = PairingStatus::Paired;
        device_info.trusted = true;
        let stored = device_info.clone();
        self.paired_devices.push(device_info);
        proof {
            assert(self.paired_devices@ =~= old(self).paired_view().push(stored));
        }
        (PairingResponse { accepted: true, pin }, Some(stored))
    }

    /// Every paired device, as copies.
    pub fn get_paired_devices(&self) -> (r: Vec<DeviceInfo>)
        ensures
            r@ == self.paired_view(),
    {
        let n = self.paired_devices.len();
        let mut out: Vec<DeviceInfo> = Vec::new();
        let mut i: usize = 0;
        while i < n
            invariant
                n == self.paired_devices@.len(),
                i <= n,
                out@.len() == i,
                forall|j: int| 0 <= j < i ==> out@[j] == self.paired_devices@[j],
            decreases n - i,
        {
            out.push(self.paired_devices[i].clone());
            i = i + 1;
        }
        proof {
            assert(out@ =~= self.paired_devices@);
        }
        out
    }
}

} // verus!
