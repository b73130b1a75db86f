//! Mesh protocol model: peer bookkeeping, network statistics and the
//! message envelope exchanged between drones. Peers are identified by
//! their textual peer id; the transport itself lives outside the library.

use vstd::prelude::*;
use crate::domain::{DroneId, DroneStatus, Telemetry};
use crate::geo::GeoPos;
use crate::sys::{fresh_uuid, now_ms};

verus! {

/// Mesh networking errors.
#[derive(Clone, Debug)]
pub enum P2pError {
    Network(String),
    Connection(String),
    PeerNotFound(String),
    Send(String),
    Receive(String),
    Serialization(String),
    Configuration(String),
    Protocol(String),
}

impl P2pError {
    pub fn network(msg: &str) -> (r: P2pError)
        ensures
            r matches P2pError::Network(m) && m@ == msg@,
    {
        P2pError::Network(msg.to_owned())
    }

    pub fn peer_not_found(msg: &str) -> (r: P2pError)
        ensures
            r matches P2pError::PeerNotFound(m) && m@ == msg@,
    {
        P2pError::PeerNotFound(msg.to_owned())
    }

    pub fn send(msg: &str) -> (r: P2pError)
        ensures
            r matches P2pError::Send(m) && m@ == msg@,
    {
        P2pError::Send(msg.to_owned())
    }
}

/// Mesh configuration.
#[derive(Clone, Debug)]
pub struct P2pConfig {
    pub listen_addrs: Vec<String>,
    pub bootstrap_peers: Vec<String>,
    pub mdns_enabled: bool,
    pub gossip_topic: String,
    pub heartbeat_interval_ms: u64,
}

impl Default for P2pConfig {
    fn default() -> (r: P2pConfig)
        ensures
            r.mdns_enabled,
            r.gossip_topic@ == "drone-convoy"@,
            r.heartbeat_interval_ms == 1000,
    {
        let mut listen: Vec<String> = Vec::new();
        listen.push("/ip4/0.0.0.0/tcp/0".to_owned());
        P2pConfig {
            listen_addrs: listen,
            bootstrap_peers: Vec::new(),
            mdns_enabled: true,
            gossip_topic: "drone-convoy".to_owned(),
            heartbeat_interval_ms: 1000,
        }
    }
}

/// Information about one known peer.
#[derive(Debug)]
pub struct PeerInfo {
    pub peer_id: String,
    pub drone_id: Option<DroneId>,
    pub addresses: Vec<String>,
    pub last_seen_ms: i64,
}

/// Network statistics.
#[derive(Clone, Copy, Debug)]
pub struct NetworkStats {
    pub messages_sent: u64,
    pub messages_received: u64,
    pub bytes_sent: u64,
    pub bytes_received: u64,
    pub peers_connected: usize,
    pub peers_discovered: usize,
}

impl Default for NetworkStats {
    fn default() -> (r: NetworkStats)
        ensures
            r.messages_sent == 0,
            r.messages_received == 0,
            r.bytes_sent == 0,
            r.bytes_received == 0,
            r.peers_connected == 0,
    {
        NetworkStats {
            messages_sent: 0,
            messages_received: 0,
            bytes_sent: 0,
            bytes_received: 0,
            peers_connected: 0,
            peers_discovered: 0,
        }
    }
}

/// Peer bookkeeping and statistics of the mesh.
pub struct DroneNetwork {
    config: P2pConfig,
    peers: Vec<(String, PeerInfo)>,
    drone_peers: Vec<(DroneId, String)>,
    stats: NetworkStats,
}

impl DroneNetwork {
    pub closed spec fn spec_peers(self) -> Seq<(String, PeerInfo)> {
        self.peers@
    }

    pub closed spec fn spec_stats(self) -> NetworkStats {
        self.stats
    }

    pub fn new(config: P2pConfig) -> (r: DroneNetwork)
        ensures
            r.spec_peers().len() == 0,
            r.spec_stats().messages_sent == 0,
    {
        DroneNetwork {
            config,
            peers: Vec::new(),
            drone_peers: Vec::new(),
            stats: NetworkStats::default(),
        }
    }

    /// Adds or replaces a peer and counts the connection.
    pub fn add_peer(&mut self, peer_id: &str, info: PeerInfo)
        ensures
            final(self).spec_peers().len() >= old(self).spec_peers().len(),
            final(self).spec_stats().peers_connected == final(self).spec_peers().len(),
    {
        let n: usize = self.peers.len();
        let mut i: usize = 0;
        let mut at: Option<usize> = None;
        while i < n
            invariant
                i <= n,
                n == self.peers@.len(),
                at matches Some(k) ==> (k as int) < n,
            decreases n - i,
        {
            if at.is_none() && self.peers[i].0.as_str() == peer_id {
                at = Some(i);
            }
            i += 1;
        }
        match at {
            Some(k) => {
                let slot = &mut self.peers[k];
                *slot = (peer_id.to_owned(), info);
            },
            None => {
                self.peers.push((peer_id.to_owned(), info));
            },
        }
        self.stats.peers_connected = self.peers.len();
    }

    /// Removes a peer and counts the disconnection.
    pub fn remove_peer(&mut self, peer_id: &str)
        ensures
            final(self).spec_peers().len() <= old(self).spec_peers().len(),
            final(self).spec_stats().peers_connected == final(self).spec_peers().len(),
    {
        let n: usize = self.peers.len();
        let mut i: usize = 0;
        let mut at: Option<usize> = None;
        while i < n
            invariant
                i <= n,
                n == self.peers@.len(),
                at matches Some(k) ==> (k as int) < n,
            decreases n - i,
        {
            if at.is_none() && self.peers[i].0.as_str() == peer_id {
                at = Some(i);
            }
            i += 1;
        }
        if let Some(k) = at {
            let _ = self.peers.remove(k);
        }
        self.stats.peers_connected = self.peers.len();
    }

    /// The number of known peers.
    pub fn peer_count(&self) -> (r: usize)
        ensures
            r == self.spec_peers().len(),
    {
        self.peers.len()
    }

    /// Whether a peer is known.
    pub fn is_peer_connected(&self, peer_id: &str) -> (r: bool) {
        let n: usize = self.peers.len();
        let mut i: usize = 0;
        while i < n
            invariant
                i <= n,
                n == self.peers@.len(),
            decreases n - i,
        {
            if self.peers[i].0.as_str() == peer_id {
                return true;
            }
            i += 1;
        }
        false
    }

    /// Associates a drone with a peer.
    pub fn register_drone(&mut self, drone_id: DroneId, peer_id: &str)
        ensures
            final(self).spec_peers() == old(self).spec_peers(),
    {
        let n: usize = self.drone_peers.len();
        let mut i: usize = 0;
        let mut at: Option<usize> = None;
        while i < n
            invariant
                i <= n,
                n == self.drone_peers@.len(),
                at matches Some(k) ==> (k as int) < n,
                self.peers@ == old(self).peers@,
            decreases n - i,
        {
            if at.is_none() && self.drone_peers[i].0.0 == drone_id.0 {
                at = Some(i);
            }
            i += 1;
        }
        match at {
            Some(k) => {
                let slot = &mut self.drone_peers[k];
                *slot = (drone_id, peer_id.to_owned());
            },
            None => {
                self.drone_peers.push((drone_id, peer_id.to_owned()));
            },
        }
    }

    /// The peer a drone is registered under, if any.
    pub fn get_drone_peer(&self, drone_id: &DroneId) -> (r: Option<String>) {
        let n: usize = self.drone_peers.len();
        let mut i: usize = 0;
        while i < n
            invariant
                i <= n,
                n == self.drone_peers@.len(),
            decreases n - i,
        {
            if self.drone_peers[i].0.0 == drone_id.0 {
                return Some(self.drone_peers[i].1.clone());
            }
            i += 1;
        }
        None
    }

    /// Counts one outbound message of the given size.
    pub fn record_message_sent(&mut self, bytes: u64)
        ensures
            final(self).spec_stats().messages_sent == (if old(self).spec_stats().messages_sent
                < u64::MAX {
                old(self).spec_stats().messages_sent + 1
            } else {
                old(self).spec_stats().messages_sent as int
            }),
            final(self).spec_stats().bytes_sent >= old(self).spec_stats().bytes_sent,
            final(self).spec_stats().messages_received == old(self).spec_stats().messages_received,
    {
        self.stats.messages_sent = if self.stats.messages_sent < u64::MAX {
            self.stats.messages_sent + 1
        } else {
            self.stats.messages_sent
        };
        self.stats.bytes_sent = if self.stats.bytes_sent <= u64::MAX - bytes {
            self.stats.bytes_sent + bytes
        } else {
            u64::MAX
        };
    }

    /// Counts one inbound message of the given size.
    pub fn record_message_received(&mut self, bytes: u64)
        ensures
            final(self).spec_stats().messages_received == (if old(
                self,
            ).spec_stats().messages_received < u64::MAX {
                old(self).spec_stats().messages_received + 1
            } else {
                old(self).spec_stats().messages_received as int
            }),
            final(self).spec_stats().bytes_received >= old(self).spec_stats().bytes_received,
            final(self).spec_stats().messages_sent == old(self).spec_stats().messages_sent,
    {
        self.stats.messages_received = if self.stats.messages_received < u64::MAX {
            self.stats.messages_received + 1
        } else {
            self.stats.messages_received
        };
        self.stats.bytes_received = if self.stats.bytes_received <= u64::MAX - bytes {
            self.stats.bytes_received + bytes
        } else {
            u64::MAX
        };
    }

    /// The current statistics.
    pub fn get_stats(&self) -> (r: NetworkStats)
        ensures
            r == self.spec_stats(),
    {
        self.stats
    }
}

/// Kinds of formation in the mesh protocol.
#[derive(PartialEq, Eq, Structural, Clone, Copy, Debug)]
pub enum FormationType {
    Line,
    Vee,
    Diamond,
    Echelon,
    Column,
    Custom,
}

/// Position in a commanded formation, offsets in millimetres.
#[derive(Clone, Debug)]
pub struct FormationPosition {
    pub drone_id: DroneId,
    pub offset_x_mm: i64,
    pub offset_y_mm: i64,
    pub offset_z_mm: i64,
}

/// Kinds of emergency broadcast.
#[derive(PartialEq, Eq, Structural, Clone, Copy, Debug)]
pub enum EmergencyType {
    LowBattery,
    LowFuel,
    SystemFailure,
    LostConnection,
    HostileContact,
    WeatherAlert,
    CollisionWarning,
}

/// Position update payload.
#[derive(Clone, Debug)]
pub struct PositionUpdateData {
    pub drone_id: DroneId,
    pub position: GeoPos,
    pub telemetry: Telemetry,
}

/// Status change payload.
#[derive(Clone, Debug)]
pub struct StatusChangeData {
    pub drone_id: DroneId,
    pub old_status: DroneStatus,
    pub new_status: DroneStatus,
}

/// Formation command payload.
#[derive(Clone, Debug)]
pub struct FormationCommandData {
    pub command_id: u128,
    pub formation_type: FormationType,
    pub leader_id: DroneId,
    pub positions: Vec<FormationPosition>,
}

/// Emergency payload.
#[derive(Clone, Debug)]
pub struct EmergencyData {
    pub drone_id: DroneId,
    pub emergency_type: EmergencyType,
    pub position: GeoPos,
    pub message: String,
}

/// Acknowledgment payload.
#[derive(Clone, Debug)]
pub struct AckData {
    pub message_id: u128,
    pub drone_id: DroneId,
    pub success: bool,
}

/// Discovery response payload.
#[derive(Clone, Debug)]
pub struct DiscoveryResponseData {
    pub drone_id: DroneId,
    pub capabilities: Vec<String>,
    pub formation_role: Option<String>,
}

/// Message kinds of the mesh protocol.
#[derive(Clone, Debug)]
pub enum MessageType {
    Heartbeat,
    PositionUpdate(PositionUpdateData),
    StatusChange(StatusChangeData),
    FormationCommand(FormationCommandData),
    Emergency(EmergencyData),
    Ack(AckData),
    DiscoveryRequest,
    DiscoveryResponse(DiscoveryResponseData),
}

/// The mesh message envelope.
#[derive(Clone, Debug)]
pub struct DroneMessage {
    pub id: u128,
    pub timestamp_ms: i64,
    pub sender: DroneId,
    pub message_type: MessageType,
    /// Forwarding budget.
    pub ttl: u8,
}

impl DroneMessage {
    /// A fresh message with the default forwarding budget of 5.
    pub fn new(sender: DroneId, message_type: MessageType) -> (r: DroneMessage)
        ensures
            r.sender == sender,
            r.message_type == message_type,
            r.ttl == 5,
    {
        DroneMessage {
            id: fresh_uuid(),
            timestamp_ms: now_ms(),
            sender,
            message_type,
            ttl: 5,
        }
    }

    pub fn heartbeat(sender: DroneId) -> (r: DroneMessage)
        ensures
            r.message_type is Heartbeat,
            r.ttl == 5,
    {
        DroneMessage::new(sender, MessageType::Heartbeat)
    }

    pub fn position_update(sender: DroneId, position: GeoPos, telemetry: Telemetry) -> (r:
        DroneMessage)
        ensures
            r.message_type matches MessageType::PositionUpdate(p) && p.position == position
                && p.telemetry == telemetry,
            r.ttl == 5,
    {
        let drone_id = DroneId::from_string(sender.0.clone());
        DroneMessage::new(
            sender,
            MessageType::PositionUpdate(PositionUpdateData { drone_id, position, telemetry }),
        )
    }

    pub fn status_change(sender: DroneId, old_status: DroneStatus, new_status: DroneStatus) -> (r:
        DroneMessage)
        ensures
            r.message_type matches MessageType::StatusChange(p) && p.old_status == old_status
                && p.new_status == new_status,
            r.ttl == 5,
    {
        let drone_id = DroneId::from_string(sender.0.clone());
        DroneMessage::new(
            sender,
            MessageType::StatusChange(StatusChangeData { drone_id, old_status, new_status }),
        )
    }

    pub fn emergency(
        sender: DroneId,
        emergency_type: EmergencyType,
        position: GeoPos,
        message: String,
    ) -> (r: DroneMessage)
        ensures
            r.message_type matches MessageType::Emergency(p) && p.emergency_type == emergency_type
                && p.position == position,
            r.ttl == 5,
    {
        let drone_id = DroneId::from_string(sender.0.clone());
        DroneMessage::new(
            sender,
            MessageType::Emergency(
                EmergencyData { drone_id, emergency_type, position, message },
            ),
        )
    }

    /// Spends one unit of the forwarding budget; a message with no budget
    /// left reports that it should be dropped.
    pub fn decrement_ttl(&mut self) -> (r: bool)
        ensures
            r == (old(self).ttl > 0),
            old(self).ttl > 0 ==> final(self).ttl == old(self).ttl - 1,
            old(self).ttl == 0 ==> final(self).ttl == 0,
            final(self).id == old(self).id,
            final(self).message_type == old(self).message_type,
    {
        if self.ttl > 0 {
            self.ttl = self.ttl - 1;
            true
        } else {
            false
        }
    }
}

} // verus!
