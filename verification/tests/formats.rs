//! Tests of the text formats: versions, unit files, the daemon
//! configuration, and the repository's names and URLs.

use mcman::config::{DaemonConfig, ServerConfig, ServerUnitConfig, UnitConfig};
use mcman::repo::{builds_url, build_url, download_url, jar_name, project_url, PaperRepository, RepositoryError};
use mcman::unit_file::{parse_daemon_config, parse_simple_unit_config, parse_unit_file, render_unit_file};
use mcman::version::{core_string, parse_lenient, parse_version, path_string, up_to_date, version_string, Version};

fn v(major: u64, minor: u64, patch: u64) -> Version {
    Version::new(major, minor, patch)
}

fn vb(major: u64, minor: u64, patch: u64, build: u64) -> Version {
    Version::new(major, minor, patch).with_build(build)
}

#[test]
fn version_renders_core_and_build() {
    assert_eq!(core_string(&v(1, 20, 1)).as_str(), "1.20.1");
    assert_eq!(version_string(&v(1, 20, 1)).as_str(), "1.20.1");
    assert_eq!(version_string(&vb(1, 20, 1, 196)).as_str(), "1.20.1+196");
    assert_eq!(version_string(&v(0, 0, 0)).as_str(), "0.0.0");
}

#[test]
fn version_parses_exactly() {
    assert_eq!(parse_version("1.20.1"), Some(v(1, 20, 1)));
    assert_eq!(parse_version("1.20.1+196"), Some(vb(1, 20, 1, 196)));
    assert_eq!(parse_version("1.20"), None);
    assert_eq!(parse_version("1.20.1+"), None);
    assert_eq!(parse_version("1.20.1-pre7"), None);
    assert_eq!(parse_version(""), None);
    assert_eq!(parse_version("1.20.1+196x"), None);
    assert_eq!(parse_version("99999999999999999999999.0.0"), None);
}

#[test]
fn version_round_trips_through_text() {
    for sample in [v(1, 8, 8), vb(1, 20, 1, 196), v(0, 0, 0), vb(18446744073709551615, 0, 3, 7)] {
        let text = version_string(&sample);
        assert_eq!(parse_version(text.as_str()), Some(sample));
    }
}

#[test]
fn lenient_parse_fills_missing_components() {
    assert_eq!(parse_lenient("1.20"), Some(v(1, 20, 0)));
    assert_eq!(parse_lenient("1"), Some(v(1, 0, 0)));
    assert_eq!(parse_lenient("1.13-pre7"), Some(v(1, 13, 0)));
    assert_eq!(parse_lenient("1.20.1+196"), Some(v(1, 20, 1)));
    assert_eq!(parse_lenient("1.16.5"), Some(v(1, 16, 5)));
    assert_eq!(parse_lenient("x1.2"), None);
    assert_eq!(parse_lenient("1.2.3.4"), None);
}

#[test]
fn dominance_treats_absent_build_as_oldest() {
    // identical version and build: up to date
    assert!(up_to_date(&vb(1, 20, 1, 196), &vb(1, 20, 1, 196)));
    // newer target build
    assert!(!up_to_date(&vb(1, 20, 1, 196), &vb(1, 20, 1, 197)));
    // older target build
    assert!(up_to_date(&vb(1, 20, 1, 196), &vb(1, 20, 1, 100)));
    // newer target core version
    assert!(!up_to_date(&vb(1, 20, 1, 196), &vb(1, 20, 2, 1)));
    // an absent build counts as minus infinity on either side
    assert!(!up_to_date(&v(1, 20, 1), &vb(1, 20, 1, 1)));
    assert!(up_to_date(&vb(1, 20, 1, 1), &v(1, 20, 1)));
    assert!(up_to_date(&v(1, 20, 1), &v(1, 20, 1)));
}

#[test]
fn repository_path_drops_zero_patch() {
    assert_eq!(path_string(&v(1, 20, 0)).as_str(), "1.20");
    assert_eq!(path_string(&v(1, 20, 1)).as_str(), "1.20.1");
}

#[test]
fn jar_names_write_build_with_dash() {
    assert_eq!(jar_name(&vb(1, 20, 1, 196)).as_str(), "paper_1.20.1-196.jar");
    assert_eq!(jar_name(&v(1, 20, 1)).as_str(), "paper_1.20.1.jar");
}

#[test]
fn repository_urls() {
    assert_eq!(
        project_url().as_str(),
        "https://papermc.io/api/v2/projects/paper/"
    );
    assert_eq!(
        builds_url(&v(1, 20, 1)).as_str(),
        "https://papermc.io/api/v2/projects/paper/versions/1.20.1/builds"
    );
    assert_eq!(
        build_url(&v(1, 16, 0), 42).as_str(),
        "https://papermc.io/api/v2/projects/paper/versions/1.16/builds/42"
    );
    assert_eq!(
        download_url(&v(1, 20, 1), 196, "paper-1.20.1-196.jar").as_str(),
        "https://papermc.io/api/v2/projects/paper/versions/1.20.1/builds/196/downloads/paper-1.20.1-196.jar"
    );
}

#[test]
fn latest_version_picks_the_maximum() {
    let versions = vec![v(1, 16, 5), v(1, 20, 1), v(1, 8, 8)];
    assert_eq!(PaperRepository::latest_version(&versions).unwrap(), v(1, 20, 1));
    let none: Vec<Version> = Vec::new();
    let err = PaperRepository::latest_version(&none).unwrap_err();
    assert_eq!(err.text().as_str(), "no version found");
}

#[test]
fn parse_versions_maps_the_index() {
    let strings = vec!["1.20.1".to_string(), "1.13-pre7".to_string(), "1.20".to_string()];
    let parsed = PaperRepository::parse_versions(&strings).unwrap();
    assert_eq!(parsed, vec![v(1, 20, 1), v(1, 13, 0), v(1, 20, 0)]);
    let bad = vec!["1.20.1".to_string(), "snapshot".to_string()];
    let err = PaperRepository::parse_versions(&bad).unwrap_err();
    assert_eq!(err.text().as_str(), "failed to parse version string");
}

#[test]
fn build_selection_and_listing() {
    let builds = vec![100u64, 196, 42];
    assert_eq!(PaperRepository::select_latest_build(&builds).unwrap(), 196);
    let none: Vec<u64> = Vec::new();
    let err = PaperRepository::select_latest_build(&none).unwrap_err();
    assert_eq!(err.text().as_str(), "no build found for the given version");
    let listed = PaperRepository::make_build_versions(&v(1, 20, 1), &builds);
    assert_eq!(listed, vec![vb(1, 20, 1, 100), vb(1, 20, 1, 196), vb(1, 20, 1, 42)]);
}

#[test]
fn repository_error_carries_its_cause() {
    let plain = RepositoryError::borrowed("failed to execute repository request");
    assert_eq!(plain.text().as_str(), "failed to execute repository request");
    let with = RepositoryError::owned("failed to parse json response".to_string())
        .with_inner("unexpected end of input".to_string());
    assert_eq!(
        with.text().as_str(),
        "failed to parse json response: unexpected end of input"
    );
}

fn sample_config() -> ServerUnitConfig {
    ServerUnitConfig {
        unit: UnitConfig {
            id: "u1".to_string(),
            unit_type: "server".to_string(),
        },
        server: ServerConfig {
            name: "srv".to_string(),
            path: "/tmp/u1".to_string(),
            kind: "paper".to_string(),
            jar: "paper_1.20.1-196.jar".to_string(),
            version: vb(1, 20, 1, 196),
            memory: 10,
        },
    }
}

#[test]
fn unit_file_renders_canonical_toml() {
    let text = render_unit_file(&sample_config());
    let expected = "[unit]\nid = \"u1\"\ntype = \"server\"\n[server]\nname = \"srv\"\npath = \"/tmp/u1\"\ntype = \"paper\"\njar = \"paper_1.20.1-196.jar\"\nversion = \"1.20.1+196\"\nmemory = 10\n";
    assert_eq!(text.as_str(), expected);
}

#[test]
fn unit_file_round_trips() {
    let config = sample_config();
    let text = render_unit_file(&config);
    let simple = parse_simple_unit_config(text.as_str()).unwrap();
    assert_eq!(simple.unit.id.as_str(), "u1");
    assert_eq!(simple.unit.unit_type.as_str(), "server");
    let back = parse_unit_file(text.as_str()).unwrap();
    assert_eq!(back.unit.id, config.unit.id);
    assert_eq!(back.unit.unit_type, config.unit.unit_type);
    assert_eq!(back.server.name, config.server.name);
    assert_eq!(back.server.path, config.server.path);
    assert_eq!(back.server.kind, config.server.kind);
    assert_eq!(back.server.jar, config.server.jar);
    assert_eq!(back.server.version, config.server.version);
    assert_eq!(back.server.memory, config.server.memory);
}

#[test]
fn unit_file_rejects_other_shapes() {
    assert!(parse_unit_file("").is_none());
    assert!(parse_unit_file("[unit]\nid = \"u1\"\n").is_none());
    assert!(parse_simple_unit_config("[service]\nid = \"u1\"\n").is_none());
    // memory must fit in 32 bits
    let text = "[unit]\nid = \"u1\"\ntype = \"server\"\n[server]\nname = \"s\"\npath = \"/p\"\ntype = \"paper\"\njar = \"a.jar\"\nversion = \"1.0.0\"\nmemory = 4294967296\n";
    assert!(parse_unit_file(text).is_none());
    // an unterminated string never parses
    assert!(parse_unit_file("[unit]\nid = \"u1").is_none());
}

#[test]
fn daemon_config_parses() {
    let text = "unit_directories = [\"/etc/mcman/units\", \"/srv/units\"]\nautostart = [\"u1\"]\nsocket_file = \"/tmp/mcman.sock\"\n";
    let config: DaemonConfig = parse_daemon_config(text).unwrap();
    assert_eq!(config.unit_directories, vec!["/etc/mcman/units".to_string(), "/srv/units".to_string()]);
    assert_eq!(config.autostart, vec!["u1".to_string()]);
    assert_eq!(config.socket_file.as_str(), "/tmp/mcman.sock");
}

#[test]
fn daemon_config_accepts_empty_lists() {
    let text = "unit_directories = []\nautostart = []\nsocket_file = \"mcman.sock\"\n";
    let config = parse_daemon_config(text).unwrap();
    assert!(config.unit_directories.is_empty());
    assert!(config.autostart.is_empty());
}

#[test]
fn daemon_config_rejects_unknown_keys() {
    let text = "unit_directories = []\nautostart = []\nsocket_file = \"s\"\nextra = 1\n";
    assert!(parse_daemon_config(text).is_none());
    assert!(parse_daemon_config("socket_file = \"s\"\n").is_none());
}
