use vstd::prelude::*;

verus! {

/// One durable, ordered unit of change to a folder.  The edit itself is an
/// opaque byte string; the id is assigned by the client and is strictly
/// increasing within one folder.
#[derive(Clone, Debug, PartialEq, Eq)]
pub struct Revision {
    /// The folder the edit belongs to.
    pub object_id: String,
    /// Strictly increasing revision id within the folder.
    pub rev_id: i64,
    /// Opaque encoded edit; only the synchronizer reads it.
    pub bytes: Vec<u8>,
}

/// An inbound client message: a batch of revisions (or a ping) for one
/// folder, tagged with the client's latest revision id.
#[derive(Clone, Debug, PartialEq, Eq)]
pub struct ClientRevisionWSData {
    /// The folder the message addresses.
    pub object_id: String,
    /// The client's latest revision id; echoed back in the acknowledgment.
    pub rev_id: i64,
    /// Ordered batch of revisions; empty for a ping.
    pub revisions: Vec<Revision>,
}

/// The durable record of a folder as the persistence collaborator returns
/// it: the snapshot bytes and the last revision id folded into them.
#[derive(Clone, Debug, PartialEq, Eq)]
pub struct FolderInfo {
    /// The folder's identity.
    pub folder_id: String,
    /// Last revision id applied to the durable snapshot.
    pub rev_id: i64,
    /// Serialized document snapshot; opaque to the routing layer.
    pub text: Vec<u8>,
}

/// The acknowledgment sent back to the client whose revisions were applied,
/// keyed by the folder and the client's revision id.
#[derive(Clone, Debug, PartialEq, Eq)]
pub struct ServerRevisionWSData {
    /// The folder the acknowledgment is about.
    pub object_id: String,
    /// The revision id the acknowledged message carried.
    pub rev_id: i64,
}

} // verus!
