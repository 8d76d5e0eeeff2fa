//! Records kept in the shared store.

use vstd::prelude::*;

verus! {

/// One SFU as the store records it.
#[derive(Debug, Clone, PartialEq, Eq)]
pub struct SfuInstance {
    pub instance_id: String,
    pub grpc_addr: String,
    pub max_rooms: u32,
    pub alive: bool,
    pub state: String,
    pub last_ping_unix: i64,
    pub idle_since_unix: i64,
}

/// One SFU of the configured inventory.
#[derive(Debug, Clone, PartialEq, Eq)]
pub struct SfuCandidate {
    pub instance_id: String,
    pub grpc_addr: String,
    pub max_rooms: u32,
}

/// Where a room lives: its owning signaling node and its SFU.
#[derive(Debug, Clone, PartialEq, Eq)]
pub struct RoomBinding {
    pub room_id: String,
    pub owner_id: String,
    pub owner_host: String,
    pub owner_port: u16,
    pub state: String,
    pub sfu_instance_id: Option<String>,
    pub sfu_grpc_addr: Option<String>,
}

/// The supervisor's last heartbeat.
#[derive(Debug, Clone, PartialEq, Eq)]
pub struct SupervisorStatus {
    pub last_seen_unix: i64,
    pub instance_id: Option<String>,
}


pub struct SfuInstanceView {
    pub instance_id: Seq<char>,
    pub grpc_addr: Seq<char>,
    pub max_rooms: u32,
    pub alive: bool,
    pub state: Seq<char>,
    pub last_ping_unix: i64,
    pub idle_since_unix: i64,
}

impl View for SfuInstance {
    type V = SfuInstanceView;

    open spec fn view(&self) -> SfuInstanceView {
        SfuInstanceView {
            instance_id: self.instance_id@,
            grpc_addr: self.grpc_addr@,
            max_rooms: self.max_rooms,
            alive: self.alive,
            state: self.state@,
            last_ping_unix: self.last_ping_unix,
            idle_since_unix: self.idle_since_unix,
        }
    }
}

pub struct RoomBindingView {
    pub room_id: Seq<char>,
    pub owner_id: Seq<char>,
    pub owner_host: Seq<char>,
    pub owner_port: u16,
    pub state: Seq<char>,
    pub sfu_instance_id: Option<Seq<char>>,
    pub sfu_grpc_addr: Option<Seq<char>>,
}

impl View for RoomBinding {
    type V = RoomBindingView;

    open spec fn view(&self) -> RoomBindingView {
        RoomBindingView {
            room_id: self.room_id@,
            owner_id: self.owner_id@,
            owner_host: self.owner_host@,
            owner_port: self.owner_port,
            state: self.state@,
            sfu_instance_id: crate::text::opt_view(self.sfu_instance_id),
            sfu_grpc_addr: crate::text::opt_view(self.sfu_grpc_addr),
        }
    }
}

pub struct SupervisorStatusView {
    pub last_seen_unix: i64,
    pub instance_id: Option<Seq<char>>,
}

impl View for SupervisorStatus {
    type V = SupervisorStatusView;

    open spec fn view(&self) -> SupervisorStatusView {
        SupervisorStatusView {
            last_seen_unix: self.last_seen_unix,
            instance_id: crate::text::opt_view(self.instance_id),
        }
    }
}

} // verus!
