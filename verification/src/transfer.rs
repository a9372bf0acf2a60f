//! Chunked file transfer over a paired connection: the per-transfer byte
//! accounting and the shared progress table.
//!
//! The embedding application owns the sockets and the file handles; the
//! block accounting of one transfer and the table of progress records —
//! one per transfer, each updated independently of the others — live here.

use vstd::prelude::*;
use crate::support;
use crate::text::str_eq;
use crate::types::{DeviceInfo, TransferProgress, TransferStatus};

verus! {

/// Bytes per streamed block: 256 KiB.
pub const BLOCK_SIZE: usize = 262144;

/// Header preceding the raw byte stream of one transfer, sent
/// length-prefixed.
#[derive(Debug, Clone)]
pub struct FileHeader {
    /// Identifier of the transfer.
    pub transfer_id: String,
    /// Name of the file.
    pub file_name: String,
    /// Size of the file in bytes.
    pub file_size: u64,
}

/// Byte accounting of one transfer in flight.
#[derive(Debug)]
pub struct TransferTask {
    /// Identifier of the transfer.
    pub id: String,
    /// Total bytes to move.
    pub total_bytes: u64,
    /// Bytes moved so far.
    pub transferred: u64,
    /// State of the transfer.
    pub status: TransferStatus,
}

impl TransferTask {
    /// The account never runs past the total, and a completed transfer has
    /// moved every byte.
    pub open spec fn wf(self) -> bool {
        &&& self.transferred <= self.total_bytes
        &&& (self.status == TransferStatus::Completed ==> self.transferred == self.total_bytes)
    }

    /// Fresh account for a transfer of `total_bytes` bytes.
    pub fn start(id: String, total_bytes: u64) -> (r: Self)
        ensures
            r.id == id,
            r.total_bytes == total_bytes,
            r.transferred == 0,
            r.status == TransferStatus::Initializing,
            r.wf(),
    {
        TransferTask { id, total_bytes, transferred: 0, status: TransferStatus::Initializing }
    }

    /// Records one block of `n` bytes moved.  The account grows by exactly
    /// `n` and the transfer is in progress.
    pub fn record_chunk(&mut self, n: usize)
        requires
            old(self).wf(),
            old(self).status == TransferStatus::Initializing || old(self).status
                == TransferStatus::InProgress,
            old(self).transferred + n <= old(self).total_bytes,
        ensures
            final(self).transferred == old(self).transferred + n,
            final(self).status == TransferStatus::InProgress,
            final(self).id == old(self).id,
            final(self).total_bytes == old(self).total_bytes,
            final(self).wf(),
    {
        self.transferred = self.transferred + (n as u64);
        self.status = TransferStatus::InProgress;
    }

    /// Marks the transfer complete: every byte of the total is accounted
    /// for and the state is final.
    pub fn complete(&mut self)
        ensures
            final(self).transferred == old(self).total_bytes,
            final(self).status == TransferStatus::Completed,
            final(self).id == old(self).id,
            final(self).total_bytes == old(self).total_bytes,
            final(self).wf(),
    {
        self.transferred = self.total_bytes;
        self.status = TransferStatus::Completed;
    }

    /// Marks the transfer failed, keeping the bytes moved so far: a
    /// transfer interrupted mid-stream keeps an account short of the
    /// total.
    pub fn fail(&mut self)
        ensures
            final(self).transferred == old(self).transferred,
            final(self).status == TransferStatus::Failed,
            final(self).id == old(self).id,
            final(self).total_bytes == old(self).total_bytes,
            old(self).transferred < old(self).total_bytes ==> final(self).transferred < final(self).total_bytes,
    {
        self.status = TransferStatus::Failed;
    }

    /// The progress record for the current account.
    pub fn snapshot(&self, device_id: &String) -> (r: TransferProgress)
        ensures
            r.id == self.id,
            r.bytes_transferred == self.transferred,
            r.total_bytes == self.total_bytes,
            r.status == self.status,
            r.device_id == device_id,
    {
        TransferProgress {
            id: self.id.clone(),
            bytes_transferred: self.transferred,
            total_bytes: self.total_bytes,
            status: self.status,
            device_id: device_id.clone(),
        }
    }
}

/// One progress row changed: the first row whose transfer id matches,
/// every other row untouched.
pub open spec fn progress_changed_first(
    olds: Seq<TransferProgress>,
    news: Seq<TransferProgress>,
    id: Seq<char>,
    i: int,
) -> bool {
    &&& 0 <= i < olds.len()
    &&& olds[i].id@ == id
    &&& (forall|j: int| 0 <= j < i ==> olds[j].id@ != id)
    &&& news.len() == olds.len()
    &&& (forall|j: int| 0 <= j < olds.len() && j != i ==> news[j] == olds[j])
}

/// The first progress row with the id took the given account and status,
/// and `d` is that updated row.  Every other transfer's row is untouched:
/// one transfer's progress never affects another's.
pub open spec fn progress_updated_first(
    olds: Seq<TransferProgress>,
    news: Seq<TransferProgress>,
    id: Seq<char>,
    transferred_bytes: u64,
    status: TransferStatus,
    d: TransferProgress,
) -> bool {
    exists|i: int|
        {
            &&& #[trigger] progress_changed_first(olds, news, id, i)
            &&& news[i] == d
            &&& d.id == olds[i].id
            &&& d.bytes_transferred == transferred_bytes
            &&& d.total_bytes == olds[i].total_bytes
            &&& d.status == status
            &&& d.device_id == olds[i].device_id
        }
}

/// The Wi-Fi transfer service: the local device's identity, the port the
/// transfer listener binds, and the table of progress records.
pub struct WiFiTransport {
    local_device: DeviceInfo,
    port: u16,
    progress: Vec<TransferProgress>,
}

impl WiFiTransport {
    /// The local device record, for contracts.
    pub closed spec fn local(self) -> DeviceInfo {
        self.local_device
    }

    /// The port the transfer listener binds, for contracts.
    pub closed spec fn spec_port(self) -> u16 {
        self.port
    }

    /// The progress table, for contracts.
    pub closed spec fn progress_view(self) -> Seq<TransferProgress> {
        self.progress@
    }

    /// Whether the table holds a row for the transfer id.
    pub open spec fn has_transfer(self, id: Seq<char>) -> bool {
        exists|i: int|
            0 <= i < self.progress_view().len() && (#[trigger] self.progress_view()[i]).id@ == id
    }

    /// Fresh service on the given port with an empty progress table.
    pub fn new(local_device: DeviceInfo, port: u16) -> (r: Self)
        ensures
            r.local() == local_device,
            r.spec_port() == port,
            r.progress_view().len() == 0,
    {
        WiFiTransport { local_device, port, progress: Vec::new() }
    }

    /// The port the transfer listener binds.
    pub fn port(&self) -> (r: u16)
        ensures
            r == self.spec_port(),
    {
        self.port
    }

    /// Index of the first progress row with the id, if any.
    fn index_of_transfer(&self, id: &str) -> (r: Option<usize>)
        ensures
            (match r {
                Some(i) => {
                    &&& i < self.progress_view().len()
                    &&& self.progress_view()[i as int].id@ == id@
                    &&& (forall|j: int| 0 <= j < i ==> self.progress_view()[j].id@ != id@)
                },
                None => forall|j: int|
                    0 <= j < self.progress_view().len() ==> (#[trigger] self.progress_view()[j]).id@
                        != id@,
            }),
    {
        let n = self.progress.len();
        let mut i: usize = 0;
        while i < n
            invariant
                n == self.progress@.len(),
                i <= n,
                forall|j: int| 0 <= j < i ==> (#[trigger] self.progress@[j]).id@ != id@,
            decreases n - i,
        {
            if str_eq(self.progress[i].id.as_str(), id) {
                return Some(i);
            }
            i = i + 1;
        }
        None
    }

    /// Opens the account for an outbound transfer: a fresh transfer id is
    /// drawn, a row enters the table with no bytes moved, and the header
    /// for the wire is returned with it.
    pub fn begin_send(&mut self, device_id: &str, file_name: &str, file_size: u64) -> (r: (
        String,
        FileHeader,
    ))
        ensures
            r.0@.len() == 36,
            r.1.transfer_id == r.0,
            r.1.file_name@ == file_name@,
            r.1.file_size == file_size,
            final(self).progress_view().len() == old(self).progress_view().len() + 1,
            (forall|j: int|
                0 <= j < old(self).progress_view().len() ==> final(self).progress_view()[j] == old(
                    self,
                ).progress_view()[j]),
            ({
                let row = final(self).progress_view().last();
                &&& row.id == r.0
                &&& row.bytes_transferred == 0
                &&& row.total_bytes == file_size
                &&& row.status == TransferStatus::Initializing
                &&& row.device_id@ == device_id@
            }),
            final(self).local() == old(self).local(),
            final(self).spec_port() == old(self).spec_port(),
    {
        let transfer_id = support::new_uuid_string();
        let header = FileHeader {
            transfer_id: transfer_id.clone(),
            file_name: file_name.to_owned(),
            file_size,
        };
        let row = TransferProgress {
            id: transfer_id.clone(),
            bytes_transferred: 0,
            total_bytes: file_size,
            status: TransferStatus::Initializing,
            device_id: device_id.to_owned(),
        };
        self.progress.push(row);
        (transfer_id, header)
    }

    /// Opens the account for an inbound transfer announced by a header.
    pub fn begin_receive(&mut self, header: &FileHeader, device_id: &str)
        ensures
            final(self).progress_view().len() == old(self).progress_view().len() + 1,
            (forall|j: int|
                0 <= j < old(self).progress_view().len() ==> final(self).progress_view()[j] == old(
                    self,
                ).progress_view()[j]),
            ({
                let row = final(self).progress_view().last();
                &&& row.id == header.transfer_id
                &&& row.bytes_transferred == 0
                &&& row.total_bytes == header.file_size
                &&& row.status == TransferStatus::Initializing
                &&& row.device_id@ == device_id@
            }),
            final(self).local() == old(self).local(),
            final(self).spec_port() == old(self).spec_port(),
    {
        let row = TransferProgress {
            id: header.transfer_id.clone(),
            bytes_transferred: 0,
            total_bytes: header.file_size,
            status: TransferStatus::Initializing,
            device_id: device_id.to_owned(),
        };
        self.progress.push(row);
    }

    /// Writes a transfer's account and status into its table row.  The
    /// first row with the id takes the new values and is returned as a
    /// copy; every other row is untouched, so one transfer's failure never
    /// affects another.  With no row for the id nothing changes.
    pub fn update_progress(&mut self, transfer_id: &str, transferred_bytes: u64, status:
        TransferStatus) -> (r: Option<TransferProgress>)
        ensures
            (r is Some) == old(self).has_transfer(transfer_id@),
            r is None ==> *final(self) == *old(self),
            r matches Some(d) ==> progress_updated_first(
                old(self).progress_view(),
                final(self).progress_view(),
                transfer_id@,
                transferred_bytes,
                status,
                d,
            ),
            final(self).local() == old(self).local(),
            final(self).spec_port() == old(self).spec_port(),
    {
        let idx = match self.index_of_transfer(transfer_id) {
            Some(i) => i,
            None => {
                return None;
            },
        };
        let ghost olds = self.progress@;
        let mut row = self.progress.remove(idx);
        row.bytes_transferred = transferred_bytes;
        row.status = status;
        let out = row.clone();
        let ghost row2 = row;
        self.progress.insert(idx, row);
        proof {
            vstd::seq_lib::lemma_update_is_remove_insert(olds, idx as int, row2);
            assert(self.progress@ =~= olds.update(idx as int, row2));
            assert(self.progress@[idx as int] == row2);
            assert(progress_changed_first(olds, self.progress@, transfer_id@, idx as int));
            assert(progress_updated_first(
                olds,
                self.progress@,
                transfer_id@,
                transferred_bytes,
                status,
                out,
            ));
        }
        Some(out)
    }

    /// A copy of the first progress row with the id, if any.
    pub fn get_progress(&self, transfer_id: &str) -> (r: Option<TransferProgress>)
        ensures
            (match r {
                Some(d) => exists|i: int|
                    {
                        &&& 0 <= i < self.progress_view().len()
                        &&& (#[trigger] self.progress_view()[i]).id@ == transfer_id@
                        &&& d == self.progress_view()[i]
                    },
                None => !self.has_transfer(transfer_id@),
            }),
    {
        match self.index_of_transfer(transfer_id) {
            Some(i) => Some(self.progress[i].clone()),
            None => None,
        }
    }
}

} // verus!
