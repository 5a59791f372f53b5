//! Volumes as the console shows them.

use vstd::prelude::*;
use crate::text::{text_or_default, text_or_empty};

verus! {

/// A volume as the engine lists it.
#[derive(Debug, Clone, PartialEq, Eq)]
pub struct EngineVolume {
    pub name: String,
    pub driver: String,
    pub mountpoint: String,
    pub created_at: Option<String>,
}

/// A volume as the console shows it.
#[derive(Debug, Clone, PartialEq, Eq)]
pub struct VolumeInfo {
    pub name: String,
    pub driver: String,
    pub mountpoint: String,
    /// The time of creation; empty where the engine gave none.
    pub created_at: String,
}

/// A shown volume as plain values.
pub struct VolumeInfoView {
    pub name: Seq<char>,
    pub driver: Seq<char>,
    pub mountpoint: Seq<char>,
    pub created_at: Seq<char>,
}

impl View for VolumeInfo {
    type V = VolumeInfoView;

    open spec fn view(&self) -> VolumeInfoView {
        VolumeInfoView {
            name: self.name@,
            driver: self.driver@,
            mountpoint: self.mountpoint@,
            created_at: self.created_at@,
        }
    }
}

/// What is shown for a listed volume.
pub open spec fn volume_info_of(volume: EngineVolume) -> VolumeInfoView {
    VolumeInfoView {
        name: volume.name@,
        driver: volume.driver@,
        mountpoint: volume.mountpoint@,
        created_at: text_or_empty(volume.created_at),
    }
}

/// The views of a list of shown volumes.
pub open spec fn volume_views(items: Seq<VolumeInfo>) -> Seq<VolumeInfoView> {
    items.map_values(|v: VolumeInfo| v@)
}

/// Makes the volume that is shown from a volume of the engine's list.
pub fn convert_volume(volume: &EngineVolume) -> (r: VolumeInfo)
    ensures
        r@ == volume_info_of(*volume),
{
    VolumeInfo {
        name: volume.name.clone(),
        driver: volume.driver.clone(),
        mountpoint: volume.mountpoint.clone(),
        created_at: text_or_default(volume.created_at.clone()),
    }
}

/// Makes the list that is shown from the engine's answer, which may hold no
/// list at all.
pub fn convert_volume_list(volumes: &Option<Vec<EngineVolume>>) -> (r: Vec<VolumeInfo>)
    ensures
        volume_views(r@) == match *volumes {
            Some(list) => list@.map_values(|v: EngineVolume| volume_info_of(v)),
            None => Seq::empty(),
        },
{
    let mut r: Vec<VolumeInfo> = Vec::new();
    match volumes {
        Some(list) => {
            let ghost want = list@.map_values(|v: EngineVolume| volume_info_of(v));
            let n = list.len();
            let mut i: usize = 0;
            while i < n
                invariant
                    n == list.len(),
                    i <= n,
                    want == list@.map_values(|v: EngineVolume| volume_info_of(v)),
                    volume_views(r@) == want.take(i as int),
                decreases n - i,
            {
                let shown = convert_volume(&list[i]);
                proof {
                    assert(volume_views(r@.push(shown)) =~= volume_views(r@).push(shown@));
                    assert(want.take(i + 1) =~= want.take(i as int).push(shown@));
                }
                r.push(shown);
                i += 1;
            }
            assert(want.take(n as int) == want);
        },
        None => {
            assert(volume_views(r@) =~= Seq::<VolumeInfoView>::empty());
        },
    }
    r
}

} // verus!
