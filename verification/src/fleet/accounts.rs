//! The working set of each operation: the records it reads and writes,
//! with the identity of the caller. An operation either applies to the
//! whole set or leaves all of it as it was.

use crate::delegation::Access;
use crate::fleet::state::{
    Cluster, ClusterView, IoTData, IoTDataView, Machine, MachineView, PlantData, PlantDataView,
};
use crate::identity::Identity;
use vstd::prelude::*;

verus! {

/// What the upload of one telemetry entry works on.
#[derive(Debug)]
pub struct UploadData {
    pub cluster: Cluster,
    pub machine: Machine,
    pub plant: PlantData,
    pub data: IoTData,
    pub payer: Identity,
    /// What the delegation controller answers to the context that asks to
    /// write this working set.
    pub access: Access,
}

pub struct UploadDataView {
    pub cluster: ClusterView,
    pub machine: MachineView,
    pub plant: PlantDataView,
    pub data: IoTDataView,
    pub payer: Seq<u8>,
    pub access: Access,
}

impl View for UploadData {
    type V = UploadDataView;

    open spec fn view(&self) -> UploadDataView {
        UploadDataView {
            cluster: self.cluster@,
            machine: self.machine@,
            plant: self.plant@,
            data: self.data@,
            payer: self.payer@,
            access: self.access,
        }
    }
}

/// What the creation of the registry works on.
#[derive(Debug)]
pub struct Initialize {
    pub cluster: Cluster,
    pub authority: Identity,
}

pub struct InitializeView {
    pub cluster: ClusterView,
    pub authority: Seq<u8>,
}

impl View for Initialize {
    type V = InitializeView;

    open spec fn view(&self) -> InitializeView {
        InitializeView { cluster: self.cluster@, authority: self.authority@ }
    }
}

/// What the registration of a machine works on: the registry, the record
/// that becomes the machine, and the caller, who will own it.
#[derive(Debug)]
pub struct RegisterMachine {
    pub cluster: Cluster,
    pub machine: Machine,
    pub user: Identity,
    /// What the delegation controller answers to the context that asks to
    /// write this working set.
    pub access: Access,
}

pub struct RegisterMachineView {
    pub cluster: ClusterView,
    pub machine: MachineView,
    pub user: Seq<u8>,
    pub access: Access,
}

impl View for RegisterMachine {
    type V = RegisterMachineView;

    open spec fn view(&self) -> RegisterMachineView {
        RegisterMachineView {
            cluster: self.cluster@,
            machine: self.machine@,
            user: self.user@,
            access: self.access,
        }
    }
}

/// What the creation of a plant works on: the registry, the record that
/// becomes the plant, the machine that will report on it, and the caller.
#[derive(Debug)]
pub struct CreatePlant {
    pub cluster: Cluster,
    pub plant: PlantData,
    pub machine: Machine,
    pub user: Identity,
    /// What the delegation controller answers to the context that asks to
    /// write this working set.
    pub access: Access,
}

pub struct CreatePlantView {
    pub cluster: ClusterView,
    pub plant: PlantDataView,
    pub machine: MachineView,
    pub user: Seq<u8>,
    pub access: Access,
}

impl View for CreatePlant {
    type V = CreatePlantView;

    open spec fn view(&self) -> CreatePlantView {
        CreatePlantView {
            cluster: self.cluster@,
            plant: self.plant@,
            machine: self.machine@,
            user: self.user@,
            access: self.access,
        }
    }
}

/// What switching a machine on or off works on.
#[derive(Debug)]
pub struct ControlMachine {
    pub machine: Machine,
    pub user: Identity,
    /// What the delegation controller answers to the context that asks to
    /// write this working set.
    pub access: Access,
}

pub struct ControlMachineView {
    pub machine: MachineView,
    pub user: Seq<u8>,
    pub access: Access,
}

impl View for ControlMachine {
    type V = ControlMachineView;

    open spec fn view(&self) -> ControlMachineView {
        ControlMachineView { machine: self.machine@, user: self.user@, access: self.access }
    }
}

/// What the use of a telemetry entry works on: the registry, the machine
/// that is paid for the use, its ledger, and the caller.
#[derive(Debug)]
pub struct UseData {
    pub cluster: Cluster,
    pub machine: Machine,
    pub data: IoTData,
    pub user: Identity,
    /// What the delegation controller answers to the context that asks to
    /// write this working set.
    pub access: Access,
}

pub struct UseDataView {
    pub cluster: ClusterView,
    pub machine: MachineView,
    pub data: IoTDataView,
    pub user: Seq<u8>,
    pub access: Access,
}

impl View for UseData {
    type V = UseDataView;

    open spec fn view(&self) -> UseDataView {
        UseDataView {
            cluster: self.cluster@,
            machine: self.machine@,
            data: self.data@,
            user: self.user@,
            access: self.access,
        }
    }
}

/// What a claim of rewards works on.
#[derive(Debug)]
pub struct ClaimRewards {
    pub machine: Machine,
    pub user: Identity,
    /// What the delegation controller answers to the context that asks to
    /// write this working set.
    pub access: Access,
}

pub struct ClaimRewardsView {
    pub machine: MachineView,
    pub user: Seq<u8>,
    pub access: Access,
}

impl View for ClaimRewards {
    type V = ClaimRewardsView;

    open spec fn view(&self) -> ClaimRewardsView {
        ClaimRewardsView { machine: self.machine@, user: self.user@, access: self.access }
    }
}

} // verus!
