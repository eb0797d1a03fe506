//! Device configuration and the registry that builds devices from it.

use crate::device::{RdmaError, VirtioRdma, RDMA_NUM_QUEUES};
use vstd::prelude::*;

verus! {

/// The configuration of an RDMA device.
#[derive(Debug, Default, Clone, PartialEq, Eq)]
pub struct RdmaDeviceConfig {
    /// Unique identifier of the device.
    pub id: String,
}

impl RdmaDeviceConfig {
    /// The configuration that describes `device`.
    pub fn from_device(device: &VirtioRdma) -> (r: RdmaDeviceConfig)
        ensures
            r.id@ == device.spec_id(),
    {
        RdmaDeviceConfig { id: device.id().to_owned() }
    }
}

/// Errors of the operations on RDMA devices.
#[derive(Debug)]
pub enum RdmaDeviceError {
    /// Unable to create the device.
    CreateDevice(RdmaError),
}

/// The identifiers after a device named `id` was built: an identifier
/// already present keeps its place, a new one is appended.
pub open spec fn ids_after_build(ids: Seq<Seq<char>>, id: Seq<char>) -> Seq<Seq<char>> {
    if ids.contains(id) {
        ids
    } else {
        ids.push(id)
    }
}

/// Whether `i` is where a device named `id` goes in a registry holding
/// `ids`: the first entry of that name, or the end.
pub open spec fn build_position(ids: Seq<Seq<char>>, id: Seq<char>, i: int) -> bool {
    if ids.contains(id) {
        0 <= i < ids.len() && ids[i] == id && forall|j: int| 0 <= j < i ==> ids[j] != id
    } else {
        i == ids.len()
    }
}

/// The identifiers after devices named `new`, in that order, were built.
pub open spec fn ids_after_builds(ids: Seq<Seq<char>>, new: Seq<Seq<char>>) -> Seq<Seq<char>>
    decreases new.len(),
{
    if new.len() == 0 {
        ids
    } else {
        ids_after_build(ids_after_builds(ids, new.drop_last()), new.last())
    }
}

/// The identifiers a list of configurations describes.
pub open spec fn config_ids(cfgs: Seq<RdmaDeviceConfig>) -> Seq<Seq<char>> {
    cfgs.map_values(|c: RdmaDeviceConfig| c.id@)
}

/// Building a device whose identifier is registered keeps the registry's
/// length and puts it at that identifier's place; a new identifier is
/// appended at the end.
pub proof fn lemma_build_replaces_or_appends(ids: Seq<Seq<char>>, id: Seq<char>, i: int)
    requires
        build_position(ids, id, i),
    ensures
        ids.contains(id) ==> ids_after_build(ids, id).len() == ids.len() && 0 <= i < ids.len()
            && ids_after_build(ids, id)[i] == id && ids[i] == id,
        !ids.contains(id) ==> ids_after_build(ids, id).len() == ids.len() + 1 && i == ids.len()
            && ids_after_build(ids, id)[i] == id,
        forall|k: int| 0 <= k < ids.len() ==> ids_after_build(ids, id)[k] == ids[k],
{
}

/// Every identifier that was registered, and every one that was built
/// since, is found in the registry's configurations.
pub proof fn lemma_configs_round_trip(ids: Seq<Seq<char>>, new: Seq<Seq<char>>, id: Seq<char>)
    requires
        ids.contains(id) || new.contains(id),
    ensures
        ids_after_builds(ids, new).contains(id),
    decreases new.len(),
{
    if new.len() > 0 {
        let prev = ids_after_builds(ids, new.drop_last());
        if new.last() == id {
            if !prev.contains(id) {
                assert(prev.push(id)[prev.len() as int] == id);
            }
        } else {
            assert(new.drop_last().contains(id) || ids.contains(id)) by {
                if new.contains(id) {
                    let k = choose|k: int| 0 <= k < new.len() && new[k] == id;
                    assert(new.drop_last()[k] == id);
                }
            }
            lemma_configs_round_trip(ids, new.drop_last(), id);
            if !prev.contains(id) {
            } else {
                let k = choose|k: int| 0 <= k < prev.len() && prev[k] == id;
                if !prev.contains(new.last()) {
                    assert(prev.push(new.last())[k] == id);
                }
            }
        }
    }
}

/// Whether building a device named `id` took the registry from `before` to
/// `after` with the new device at `i`: it stands where the identifier was
/// first found or at the end, it is fresh and inactive, and every other
/// device is kept.
pub open spec fn built_at(before: RdmaDeviceBuilder, after: RdmaDeviceBuilder, id: Seq<char>, i: int) -> bool {
    let d = after.device_seq()[i];
    &&& 0 <= i < after.device_seq().len()
    &&& build_position(before.ids(), id, i)
    &&& after.ids() == ids_after_build(before.ids(), id)
    &&& after.device_seq().len() == ids_after_build(before.ids(), id).len()
    &&& forall|j: int|
        0 <= j < after.device_seq().len() && j != i ==> after.device_seq()[j] == before.device_seq()[j]
    &&& d.spec_id() == id
    &&& !d.active()
    &&& d.wf()
    &&& d.queue_seq().len() == RDMA_NUM_QUEUES
}

/// The devices of a VM, in the order they were first configured.
#[derive(Debug, Default)]
pub struct RdmaDeviceBuilder {
    devices: Vec<VirtioRdma>,
}

impl RdmaDeviceBuilder {
    /// The registered devices.
    pub closed spec fn device_seq(&self) -> Seq<VirtioRdma> {
        self.devices@
    }

    /// The identifiers of the registered devices, in order.
    pub open spec fn ids(&self) -> Seq<Seq<char>> {
        self.device_seq().map_values(|d: VirtioRdma| d.spec_id())
    }

    /// An empty registry.
    pub fn new() -> (r: RdmaDeviceBuilder)
        ensures
            r.device_seq().len() == 0,
    {
        RdmaDeviceBuilder { devices: Vec::new() }
    }

    /// The registered devices, in order.
    pub fn iter(&self) -> (r: std::slice::Iter<'_, VirtioRdma>)
        ensures
            vstd::std_specs::iter::IteratorSpec::remaining(&r) == self.device_seq().as_ref(),
    {
        let devices = self.devices.as_slice();
        let r = devices.iter();
        proof {
            vstd::std_specs::slice::axiom_spec_slice_iter(devices);
        }
        r
    }

    /// Hands the registered devices over, in order.
    pub fn into_devices(self) -> (r: Vec<VirtioRdma>)
        ensures
            r@ == self.device_seq(),
    {
        self.devices
    }

    /// Appends an existing device.
    pub fn add_device(&mut self, device: VirtioRdma)
        ensures
            final(self).device_seq() == old(self).device_seq().push(device),
    {
        self.devices.push(device);
    }

    /// Builds a device from `config` and registers it: it replaces the
    /// device of the same identifier in place, or is appended. Gives the
    /// position of the new device.
    pub fn build(&mut self, config: RdmaDeviceConfig) -> (r: Result<usize, RdmaDeviceError>)
        ensures
            r is Err ==> final(self).device_seq() == old(self).device_seq(),
            r is Ok ==> built_at(*old(self), *final(self), config.id@, r->Ok_0 as int),
    {
        let mut position: Option<usize> = None;
        let mut i: usize = 0;
        while i < self.devices.len()
            invariant_except_break
                position is None,
            invariant
                i <= self.devices@.len(),
                forall|j: int| 0 <= j < i ==> self.devices@[j].spec_id() != config.id@,
            ensures
                position is None ==> forall|j: int|
                    0 <= j < self.devices@.len() ==> self.devices@[j].spec_id() != config.id@,
                position is Some ==> position->0 < self.devices@.len()
                    && self.devices@[position->0 as int].spec_id() == config.id@
                    && i == position->0,
            decreases self.devices@.len() - i,
        {
            if self.devices[i].has_id(&config.id) {
                position = Some(i);
                break;
            }
            i = i + 1;
        }
        let ghost ids = old(self).ids();
        proof {
            match position {
                Some(p) => {
                    assert(ids[p as int] == config.id@);
                    assert(ids.contains(config.id@));
                },
                None => {
                    assert(!ids.contains(config.id@)) by {
                        if ids.contains(config.id@) {
                            let k = choose|k: int| 0 <= k < ids.len() && ids[k] == config.id@;
                            assert(self.devices@[k].spec_id() == config.id@);
                        }
                    }
                },
            }
        }
        let device = match VirtioRdma::new(config.id) {
            Ok(d) => d,
            Err(e) => {
                return Err(RdmaDeviceError::CreateDevice(e));
            },
        };
        match position {
            Some(index) => {
                self.devices.set(index, device);
                assert(self.ids() =~= ids_after_build(ids, config.id@));
                Ok(index)
            },
            None => {
                let index = self.devices.len();
                self.devices.push(device);
                assert(self.ids() =~= ids_after_build(ids, config.id@));
                Ok(index)
            },
        }
    }

    /// Builds and registers a device from `config`.
    pub fn insert(&mut self, config: RdmaDeviceConfig) -> (r: Result<(), RdmaDeviceError>)
        ensures
            r is Err ==> final(self).device_seq() == old(self).device_seq(),
            r is Ok ==> exists|i: int| #[trigger] built_at(*old(self), *final(self), config.id@, i),
    {
        match self.build(config) {
            Ok(i) => {
                assert(built_at(*old(self), *self, config.id@, i as int));
                Ok(())
            },
            Err(e) => Err(e),
        }
    }

    /// The configurations of the registered devices, in order.
    pub fn configs(&self) -> (r: Vec<RdmaDeviceConfig>)
        ensures
            config_ids(r@) == self.ids(),
    {
        let mut r: Vec<RdmaDeviceConfig> = Vec::new();
        let mut i: usize = 0;
        while i < self.devices.len()
            invariant
                i <= self.devices@.len(),
                r@.len() == i,
                forall|j: int| 0 <= j < i ==> #[trigger] r@[j].id@ == self.ids()[j],
            decreases self.devices@.len() - i,
        {
            r.push(RdmaDeviceConfig::from_device(&self.devices[i]));
            i = i + 1;
        }
        assert(config_ids(r@) =~= self.ids());
        r
    }
}

} // verus!
