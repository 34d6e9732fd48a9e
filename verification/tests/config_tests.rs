use kaze::config::{
    config_or_default, default_interval_minutes, default_keep_versions,
    default_keep_versions_gentle, default_max_cache_age_days, default_max_ram_percent,
    default_min_free_disk_gb, default_node_managers, default_true, KazeConfig,
};
use kaze::daemon::tick_period_secs;

#[test]
fn defaults_match_documented_values() {
    assert_eq!(default_max_cache_age_days(), 7);
    assert_eq!(default_min_free_disk_gb(), 5);
    assert_eq!(default_max_ram_percent(), 85);
    assert_eq!(default_keep_versions(), 2);
    assert_eq!(default_keep_versions_gentle(), 3);
    assert_eq!(default_node_managers(), vec!["npm", "pnpm", "yarn"]);
    assert_eq!(default_interval_minutes(), 30);
    assert!(default_true());
}

#[test]
fn default_config_holds_every_default() {
    let c = KazeConfig::default();
    assert_eq!(c.limits.max_cache_age_days, 7);
    assert_eq!(c.limits.min_free_disk_gb, 5);
    assert_eq!(c.limits.max_ram_percent, 85);
    assert_eq!(c.plugins.pacman.keep_versions, 2);
    assert_eq!(c.plugins.pacman.keep_versions_gentle, 3);
    assert_eq!(c.plugins.node.managers, vec!["npm", "pnpm", "yarn"]);
    assert!(c.plugins.node.enabled);
    assert!(!c.plugins.docker.prune_volumes);
    assert!(c.plugins.docker.enabled);
    assert_eq!(c.schedule.interval_minutes, 30);
}

#[test]
fn gentle_cleaning_keeps_more_versions_by_default() {
    let c = KazeConfig::default();
    assert!(c.plugins.pacman.keep_versions < c.plugins.pacman.keep_versions_gentle);
}

#[test]
fn clone_keeps_every_setting() {
    let mut c = KazeConfig::default();
    c.plugins.node.managers = vec!["bun".to_string()];
    c.schedule.interval_minutes = 5;
    let d = c.clone();
    assert_eq!(d.plugins.node.managers, vec!["bun"]);
    assert_eq!(d.schedule.interval_minutes, 5);
}

#[test]
fn config_or_default_prefers_the_file() {
    let mut read = KazeConfig::default();
    read.plugins.pacman.keep_versions = 1;
    let c = config_or_default(Some(read));
    assert_eq!(c.plugins.pacman.keep_versions, 1);
    let d = config_or_default(None);
    assert_eq!(d.plugins.pacman.keep_versions, 2);
}

#[test]
fn tick_period_is_the_interval_in_seconds() {
    let c = KazeConfig::default();
    assert_eq!(tick_period_secs(&c), 1800);
}
