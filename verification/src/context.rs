use vstd::prelude::*;

use crate::commitment::CommitmentLevel;
use crate::status::{SignatureStatusTable, empty_status_map};

verus! {

/// One atomic fact about the most recent block known at a confirmation
/// level: hash, height and slot always come from the same upstream answer
/// and are replaced only as a whole, never field by field.
pub struct BlockInformation {
    pub block_hash: String,
    pub block_height: u64,
    pub slot: u64,
    pub confirmation_level: CommitmentLevel,
}

impl BlockInformation {
    /// Builds the snapshot from the values one upstream query returned.
    pub fn new(
        block_hash: String,
        block_height: u64,
        slot: u64,
        commitment: CommitmentLevel,
    ) -> (r: Self)
        ensures
            r.block_hash == block_hash,
            r.block_height == block_height,
            r.slot == slot,
            r.confirmation_level == commitment,
    {
        BlockInformation { block_hash, block_height, slot, confirmation_level: commitment }
    }
}

/// The shared state request handlers read: the signature-status table and
/// one block snapshot per confirmation level.
pub struct LiteRpcContext {
    pub signature_status: SignatureStatusTable,
    pub finalized_block_info: BlockInformation,
    pub confirmed_block_info: BlockInformation,
}

impl LiteRpcContext {
    /// Each snapshot sits under the confirmation level it describes.
    pub open spec fn wf(self) -> bool {
        self.confirmed_block_info.confirmation_level == CommitmentLevel::Confirmed
            && self.finalized_block_info.confirmation_level == CommitmentLevel::Finalized
    }

    /// Builds the context from the two startup snapshots, with an empty
    /// status table.
    pub fn new(confirmed_block_info: BlockInformation, finalized_block_info: BlockInformation) -> (r:
        Self)
        requires
            confirmed_block_info.confirmation_level == CommitmentLevel::Confirmed,
            finalized_block_info.confirmation_level == CommitmentLevel::Finalized,
        ensures
            r.wf(),
            r.confirmed_block_info == confirmed_block_info,
            r.finalized_block_info == finalized_block_info,
            r.signature_status@ == empty_status_map(),
    {
        LiteRpcContext {
            signature_status: SignatureStatusTable::new(),
            confirmed_block_info,
            finalized_block_info,
        }
    }

    /// The whole snapshot stored for `level`: hash, height and slot of one
    /// update, never a mix of two.
    pub fn read_block_info(&self, level: CommitmentLevel) -> (r: &BlockInformation)
        ensures
            *r == (if level == CommitmentLevel::Confirmed {
                self.confirmed_block_info
            } else {
                self.finalized_block_info
            }),
    {
        match level {
            CommitmentLevel::Confirmed => &self.confirmed_block_info,
            CommitmentLevel::Finalized => &self.finalized_block_info,
        }
    }

    /// Replaces, as one step, the snapshot for the level `info` describes;
    /// the other level and the status table stay as they were.
    pub fn update_block_info(&mut self, info: BlockInformation)
        requires
            old(self).wf(),
        ensures
            final(self).wf(),
            info.confirmation_level == CommitmentLevel::Confirmed ==> final(self).confirmed_block_info
                == info && final(self).finalized_block_info == old(self).finalized_block_info,
            info.confirmation_level == CommitmentLevel::Finalized ==> final(self).finalized_block_info
                == info && final(self).confirmed_block_info == old(self).confirmed_block_info,
            final(self).signature_status == old(self).signature_status,
    {
        match info.confirmation_level {
            CommitmentLevel::Confirmed => {
                self.confirmed_block_info = info;
            },
            CommitmentLevel::Finalized => {
                self.finalized_block_info = info;
            },
        }
    }
}

} // verus!
