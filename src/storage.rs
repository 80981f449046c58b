//! Layout of the shared runtime-information page: NUL-terminated UTF-8 JSON
//! in a fixed-size region; a region that starts with NUL holds nothing yet.
use vstd::prelude::*;
use crate::runtime::{RuntimeInfo, State};

verus! {

/// Name of the shared region.
pub const RUNTIME_INFO_NAME: &'static str = "miax_runtime_info";

/// Size in bytes of the shared region.
pub const RUNTIME_INFO_SIZE: usize = 10000;

/// A shared region that holds the runtime information.
#[derive(Debug, Clone)]
pub struct MmapHandler {
    pub name: String,
    pub len: usize,
}

/// Length of the text stored in a region: the bytes before the first NUL.
pub open spec fn stored_len_spec(mem: Seq<u8>) -> int
    decreases mem.len(),
{
    if mem.len() == 0 {
        0
    } else if mem[0] == 0 {
        0
    } else {
        1 + stored_len_spec(mem.drop_first())
    }
}

proof fn lemma_stored_len(mem: Seq<u8>, i: int)
    requires
        0 <= i <= mem.len(),
        forall|k: int| 0 <= k < i ==> mem[k] != 0,
        i == mem.len() || mem[i] == 0,
    ensures
        stored_len_spec(mem) == i,
    decreases i,
{
    if i > 0 {
        lemma_stored_len(mem.drop_first(), i - 1);
    }
}

impl MmapHandler {
    /// The region for the runtime information under `name`: its layout; the
    /// mapping itself is made by the caller.
    pub fn new(name: String) -> (r: MmapHandler)
        ensures
            r.name@ == name@,
            r.len == RUNTIME_INFO_SIZE,
    {
        MmapHandler { name, len: RUNTIME_INFO_SIZE }
    }

    /// Length of the stored text: the bytes before the first NUL.
    pub fn stored_len(mem: &[u8]) -> (r: usize)
        ensures
            r == stored_len_spec(mem@),
            r <= mem@.len(),
    {
        let mut i: usize = 0;
        while i < mem.len() && mem[i] != 0
            invariant
                i <= mem@.len(),
                forall|k: int| 0 <= k < i ==> mem@[k] != 0,
            decreases mem@.len() - i,
        {
            i += 1;
        }
        proof {
            lemma_stored_len(mem@, i as int);
        }
        i
    }

    /// The runtime information of a region that holds nothing yet: idle, no
    /// processes, the given executable. `None` when the region holds text,
    /// which is then to be read as JSON.
    pub fn initial_if_blank(mem: &[u8], exec_path: String) -> (r: Option<RuntimeInfo>)
        ensures
            stored_len_spec(mem@) == 0 ==> (r matches Some(info) && info.wf() && info.state
                == State::Idle && info.process_infos@.len() == 0 && info.exec_path@ == exec_path@),
            stored_len_spec(mem@) != 0 ==> r is None,
    {
        if MmapHandler::stored_len(mem) == 0 {
            Some(RuntimeInfo::initial(exec_path))
        } else {
            None
        }
    }

    /// The region's content for a JSON text: the text, a NUL, then zeros.
    /// `None` when the text holds a NUL or does not fit with its terminator.
    pub fn frame(&self, json: &[u8]) -> (r: Option<Vec<u8>>)
        ensures
            r matches Some(m) ==> (m@.len() == self.len && m@.subrange(0, json@.len() as int)
                == json@ && forall|k: int| json@.len() <= k < self.len ==> m@[k] == 0),
            r matches Some(m) ==> stored_len_spec(m@) == json@.len(),
            r is None <==> (json@.len() >= self.len || exists|k: int|
                0 <= k < json@.len() && json@[k] == 0),
    {
        if json.len() >= self.len {
            return None;
        }
        let mut out: Vec<u8> = Vec::new();
        let mut i: usize = 0;
        while i < json.len()
            invariant
                i <= json@.len(),
                json@.len() < self.len,
                out@ == json@.subrange(0, i as int),
                forall|k: int| 0 <= k < i ==> json@[k] != 0,
            decreases json@.len() - i,
        {
            if json[i] == 0 {
                return None;
            }
            out.push(json[i]);
            i += 1;
        }
        while out.len() < self.len
            invariant
                json@.len() <= out@.len() <= self.len,
                out@.subrange(0, json@.len() as int) == json@,
                forall|k: int| json@.len() <= k < out@.len() ==> out@[k] == 0,
                forall|k: int| 0 <= k < json@.len() ==> json@[k] != 0,
            decreases self.len - out@.len(),
        {
            out.push(0);
        }
        proof {
            assert(forall|k: int| 0 <= k < json@.len() ==> out@[k] == json@[k]);
            lemma_stored_len(out@, json@.len() as int);
        }
        Some(out)
    }
}

/// A region of zeros holds nothing: it is read as idle with no processes.
pub proof fn lemma_zeroed_region_is_blank(mem: Seq<u8>)
    requires
        forall|k: int| 0 <= k < mem.len() ==> mem[k] == 0,
    ensures
        stored_len_spec(mem) == 0,
{
    lemma_stored_len(mem, 0);
}

} // verus!
