//! The configuration record: traffic generation, network architecture,
//! CSI feature toggles, and WiFi role, with defaults and well-formedness.

use vstd::prelude::*;

verus! {

/// Kind of generated traffic.
#[derive(Clone, Copy, Debug, PartialEq, Eq, Structural)]
pub enum TrafficKind {
    Icmp,
    Udp,
}

/// Network architecture the device takes part in.
#[derive(Clone, Copy, Debug, PartialEq, Eq, Structural)]
pub enum NetworkArch {
    RouterStation,
    RouterAccessPointStation,
    AccessPointStation,
    Sniffer,
}

/// WiFi operation mode.
#[derive(Clone, Copy, Debug, PartialEq, Eq, Structural)]
pub enum WifiMode {
    AccessPoint,
    Station,
    Sniffer,
    AccessPointStation,
}

/// Traffic generation settings.
#[derive(Clone, Copy, Debug, PartialEq, Eq, Structural)]
pub struct TrafficConfig {
    pub enabled: bool,
    pub kind: TrafficKind,
    pub interval_ms: u64,
}

/// CSI acquisition feature toggles and tuning values.
#[derive(Clone, Copy, Debug, PartialEq, Eq, Structural)]
pub struct CsiConfig {
    pub csi_enabled: bool,
    pub legacy: bool,
    pub ht20: bool,
    pub ht40: bool,
    pub su: bool,
    pub mu: bool,
    pub dcm: bool,
    pub beamformed: bool,
    /// HE-LTF sampling strategy under STBC; always in `0..=3`.
    pub he_stbc: u8,
    /// Scale configuration; always in `0..=3`.
    pub scale: u8,
}

/// WiFi role settings, with bounded-length credential strings.
pub struct WifiConfig {
    pub mode: WifiMode,
    pub max_connections: u16,
    pub ssid_hidden: bool,
    pub ap_ssid: String,
    pub ap_password: String,
    pub sta_ssid: String,
    pub sta_password: String,
}

/// The whole configuration record.
pub struct Config {
    pub traffic: TrafficConfig,
    pub net_arch: NetworkArch,
    pub csi: CsiConfig,
    pub wifi: WifiConfig,
}

/// Mathematical form of the WiFi section.
pub ghost struct WifiV {
    pub mode: WifiMode,
    pub max_connections: u16,
    pub ssid_hidden: bool,
    pub ap_ssid: Seq<char>,
    pub ap_password: Seq<char>,
    pub sta_ssid: Seq<char>,
    pub sta_password: Seq<char>,
}

/// Mathematical form of the whole record.
pub ghost struct ConfigV {
    pub traffic: TrafficConfig,
    pub net_arch: NetworkArch,
    pub csi: CsiConfig,
    pub wifi: WifiV,
}

impl View for WifiConfig {
    type V = WifiV;

    open spec fn view(&self) -> WifiV {
        WifiV {
            mode: self.mode,
            max_connections: self.max_connections,
            ssid_hidden: self.ssid_hidden,
            ap_ssid: self.ap_ssid@,
            ap_password: self.ap_password@,
            sta_ssid: self.sta_ssid@,
            sta_password: self.sta_password@,
        }
    }
}

impl View for Config {
    type V = ConfigV;

    open spec fn view(&self) -> ConfigV {
        ConfigV {
            traffic: self.traffic,
            net_arch: self.net_arch,
            csi: self.csi,
            wifi: self.wifi@,
        }
    }
}

/// Longest SSID the record accepts.
pub const MAX_SSID_LEN: usize = 32;

/// Longest password the record accepts.
pub const MAX_PASSWORD_LEN: usize = 64;

impl CsiConfig {
    /// Tuning values are within their documented ranges.
    pub open spec fn wf(self) -> bool {
        self.he_stbc <= 3 && self.scale <= 3
    }
}

impl WifiV {
    /// Credential strings fit their bounded lengths.
    pub open spec fn wf(self) -> bool {
        &&& self.ap_ssid.len() <= MAX_SSID_LEN as int
        &&& self.sta_ssid.len() <= MAX_SSID_LEN as int
        &&& self.ap_password.len() <= MAX_PASSWORD_LEN as int
        &&& self.sta_password.len() <= MAX_PASSWORD_LEN as int
    }
}

impl ConfigV {
    /// Every tunable is within its documented range.
    pub open spec fn wf(self) -> bool {
        self.csi.wf() && self.wifi.wf()
    }
}

/// The documented default record.
pub open spec fn default_config_v() -> ConfigV {
    ConfigV {
        traffic: TrafficConfig { enabled: false, kind: TrafficKind::Icmp, interval_ms: 1000 },
        net_arch: NetworkArch::Sniffer,
        csi: CsiConfig {
            csi_enabled: true,
            legacy: true,
            ht20: true,
            ht40: true,
            su: true,
            mu: true,
            dcm: true,
            beamformed: true,
            he_stbc: 2,
            scale: 2,
        },
        wifi: WifiV {
            mode: WifiMode::Sniffer,
            max_connections: 1,
            ssid_hidden: false,
            ap_ssid: Seq::empty(),
            ap_password: Seq::empty(),
            sta_ssid: Seq::empty(),
            sta_password: Seq::empty(),
        },
    }
}

/// The default record is well formed.
pub proof fn lemma_default_config_wf()
    ensures
        default_config_v().wf(),
{
}

impl Config {
    /// Builds the default-constructed record.
    pub fn new_default() -> (r: Config)
        ensures
            r@ == default_config_v(),
    {
        let r = Config {
            traffic: TrafficConfig { enabled: false, kind: TrafficKind::Icmp, interval_ms: 1000 },
            net_arch: NetworkArch::Sniffer,
            csi: CsiConfig {
                csi_enabled: true,
                legacy: true,
                ht20: true,
                ht40: true,
                su: true,
                mu: true,
                dcm: true,
                beamformed: true,
                he_stbc: 2,
                scale: 2,
            },
            wifi: WifiConfig {
                mode: WifiMode::Sniffer,
                max_connections: 1,
                ssid_hidden: false,
                ap_ssid: String::new(),
                ap_password: String::new(),
                sta_ssid: String::new(),
                sta_password: String::new(),
            },
        };
        r
    }
}

impl Clone for WifiConfig {
    /// An exact copy of the WiFi section.
    fn clone(&self) -> (r: Self)
        ensures
            r == *self,
    {
        WifiConfig {
            mode: self.mode,
            max_connections: self.max_connections,
            ssid_hidden: self.ssid_hidden,
            ap_ssid: self.ap_ssid.clone(),
            ap_password: self.ap_password.clone(),
            sta_ssid: self.sta_ssid.clone(),
            sta_password: self.sta_password.clone(),
        }
    }
}

impl Clone for Config {
    /// An exact copy of the record, for worker snapshots.
    fn clone(&self) -> (r: Self)
        ensures
            r == *self,
    {
        Config {
            traffic: self.traffic,
            net_arch: self.net_arch,
            csi: self.csi,
            wifi: self.wifi.clone(),
        }
    }
}

impl Config {
    /// An owned snapshot, taken by the worker before a run.
    pub fn snapshot(&self) -> (r: Config)
        ensures
            r == *self,
    {
        self.clone()
    }
}

} // verus!
