//! Kaze's settings and their defaults. A setting that the configuration file
//! leaves out takes the default stated here.

use vstd::prelude::*;
use crate::text::{owned, views};

verus! {

/// All of Kaze's settings.
pub struct KazeConfig {
    pub limits: LimitsConfig,
    pub plugins: PluginsConfig,
    pub schedule: ScheduleConfig,
}

/// Resource limits.
#[derive(Clone, Copy)]
pub struct LimitsConfig {
    pub max_cache_age_days: u32,
    pub min_free_disk_gb: u32,
    pub max_ram_percent: u8,
}

/// The settings of each plugin.
pub struct PluginsConfig {
    pub pacman: PacmanPluginConfig,
    pub node: NodePluginConfig,
    pub docker: DockerPluginConfig,
}

/// How many package versions `paccache` keeps.
#[derive(Clone, Copy)]
pub struct PacmanPluginConfig {
    /// Versions kept by the aggressive cleaning (pacman not in use).
    pub keep_versions: u32,
    /// Versions kept by the gentle cleaning (pacman in use).
    pub keep_versions_gentle: u32,
}

/// The Node package managers whose caches are cleaned.
pub struct NodePluginConfig {
    pub managers: Vec<String>,
    pub enabled: bool,
}

/// Container cleaning settings.
#[derive(Clone, Copy)]
pub struct DockerPluginConfig {
    /// Whether the aggressive cleaning also prunes volumes.
    pub prune_volumes: bool,
    pub enabled: bool,
}

/// How often the daemon cleans.
#[derive(Clone, Copy)]
pub struct ScheduleConfig {
    pub interval_minutes: u64,
}

pub fn default_max_cache_age_days() -> (r: u32)
    ensures
        r == 7,
{
    7
}

pub fn default_min_free_disk_gb() -> (r: u32)
    ensures
        r == 5,
{
    5
}

pub fn default_max_ram_percent() -> (r: u8)
    ensures
        r == 85,
{
    85
}

pub fn default_keep_versions() -> (r: u32)
    ensures
        r == 2,
{
    2
}

pub fn default_keep_versions_gentle() -> (r: u32)
    ensures
        r == 3,
{
    3
}

/// The managers cleaned when the configuration names none.
pub open spec fn default_managers_view() -> Seq<Seq<char>> {
    seq!["npm"@, "pnpm"@, "yarn"@]
}

pub fn default_node_managers() -> (r: Vec<String>)
    ensures
        views(r@) == default_managers_view(),
{
    let mut v: Vec<String> = Vec::new();
    v.push(owned("npm"));
    v.push(owned("pnpm"));
    v.push(owned("yarn"));
    proof {
        assert(views(v@) =~= default_managers_view());
    }
    v
}

pub fn default_interval_minutes() -> (r: u64)
    ensures
        r == 30,
{
    30
}

pub fn default_true() -> (r: bool)
    ensures
        r,
{
    true
}

impl LimitsConfig {
    pub open spec fn is_default(&self) -> bool {
        &&& self.max_cache_age_days == 7
        &&& self.min_free_disk_gb == 5
        &&& self.max_ram_percent == 85
    }
}

impl PacmanPluginConfig {
    pub open spec fn is_default(&self) -> bool {
        &&& self.keep_versions == 2
        &&& self.keep_versions_gentle == 3
    }
}

impl NodePluginConfig {
    pub open spec fn is_default(&self) -> bool {
        &&& views(self.managers@) == default_managers_view()
        &&& self.enabled
    }
}

impl DockerPluginConfig {
    pub open spec fn is_default(&self) -> bool {
        &&& !self.prune_volumes
        &&& self.enabled
    }
}

impl ScheduleConfig {
    pub open spec fn is_default(&self) -> bool {
        self.interval_minutes == 30
    }
}

impl PluginsConfig {
    pub open spec fn is_default(&self) -> bool {
        &&& self.pacman.is_default()
        &&& self.node.is_default()
        &&& self.docker.is_default()
    }

    /// Both hold the same settings.
    pub open spec fn same_settings(&self, other: &Self) -> bool {
        &&& self.pacman == other.pacman
        &&& self.docker == other.docker
        &&& self.node.enabled == other.node.enabled
        &&& self.node.managers@ == other.node.managers@
    }
}

impl KazeConfig {
    pub open spec fn is_default(&self) -> bool {
        &&& self.limits.is_default()
        &&& self.plugins.is_default()
        &&& self.schedule.is_default()
    }

    /// Both hold the same settings.
    pub open spec fn same_settings(&self, other: &Self) -> bool {
        &&& self.limits == other.limits
        &&& self.schedule == other.schedule
        &&& self.plugins.same_settings(&other.plugins)
    }
}

impl Default for LimitsConfig {
    fn default() -> (r: Self)
        ensures
            r.is_default(),
    {
        LimitsConfig {
            max_cache_age_days: default_max_cache_age_days(),
            min_free_disk_gb: default_min_free_disk_gb(),
            max_ram_percent: default_max_ram_percent(),
        }
    }
}

impl Default for PacmanPluginConfig {
    fn default() -> (r: Self)
        ensures
            r.is_default(),
    {
        PacmanPluginConfig {
            keep_versions: default_keep_versions(),
            keep_versions_gentle: default_keep_versions_gentle(),
        }
    }
}

impl Default for NodePluginConfig {
    fn default() -> (r: Self)
        ensures
            r.is_default(),
    {
        NodePluginConfig { managers: default_node_managers(), enabled: true }
    }
}

impl Default for DockerPluginConfig {
    fn default() -> (r: Self)
        ensures
            r.is_default(),
    {
        DockerPluginConfig { prune_volumes: false, enabled: true }
    }
}

impl Default for ScheduleConfig {
    fn default() -> (r: Self)
        ensures
            r.is_default(),
    {
        ScheduleConfig { interval_minutes: default_interval_minutes() }
    }
}

impl Default for PluginsConfig {
    fn default() -> (r: Self)
        ensures
            r.is_default(),
    {
        PluginsConfig {
            pacman: PacmanPluginConfig::default(),
            node: NodePluginConfig::default(),
            docker: DockerPluginConfig::default(),
        }
    }
}

impl Default for KazeConfig {
    fn default() -> (r: Self)
        ensures
            r.is_default(),
    {
        KazeConfig {
            limits: LimitsConfig::default(),
            plugins: PluginsConfig::default(),
            schedule: ScheduleConfig::default(),
        }
    }
}

impl Clone for NodePluginConfig {
    fn clone(&self) -> (r: Self)
        ensures
            r.managers@ == self.managers@,
            r.enabled == self.enabled,
    {
        NodePluginConfig { managers: self.managers.clone(), enabled: self.enabled }
    }
}

impl Clone for PluginsConfig {
    fn clone(&self) -> (r: Self)
        ensures
            r.same_settings(self),
    {
        PluginsConfig { pacman: self.pacman, node: self.node.clone(), docker: self.docker }
    }
}

impl Clone for KazeConfig {
    fn clone(&self) -> (r: Self)
        ensures
            r.same_settings(self),
    {
        KazeConfig {
            limits: self.limits,
            plugins: self.plugins.clone(),
            schedule: self.schedule,
        }
    }
}

/// The settings Kaze runs with: those read from the configuration file when
/// it could be read and understood, else the defaults.
pub fn config_or_default(parsed: Option<KazeConfig>) -> (r: KazeConfig)
    ensures
        match parsed {
            Some(c) => r == c,
            None => r.is_default(),
        },
{
    match parsed {
        Some(c) => c,
        None => KazeConfig::default(),
    }
}

} // verus!
