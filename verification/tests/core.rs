use charted::api::{
    err, failure_sources, internal_server_error, no_content, ok, system_failure, Error, ErrorCode, Version,
    STATUS_INTERNAL_SERVER_ERROR, STATUS_NO_CONTENT,
};
use charted::bitflags::{Bitfield, Bitflags};
use charted::build_info::{format_version, rand_string, version, ResultExt, COMMIT_HASH, VERSION};
use charted::distribution::{cgroup_mentions_docker, docker_detected, k8s_detected, Distribution};
use charted::duration::{within_duration_bound, Duration, DurationParseError, DurationRepr};
use charted::scopes::{ApiKeyScope, MemberPermission};

#[test]
fn bitfield_add_example() {
    let mut bitfield = Bitfield::<MemberPermission>::new(0);
    bitfield.add(&[MemberPermission::MemberInvite]);
    assert_eq!(bitfield.value(), 1);
}

#[test]
fn bitfield_remove_example() {
    let mut bitfield = Bitfield::<MemberPermission>::new(0);
    bitfield.add(&[MemberPermission::MemberInvite]);
    assert_eq!(bitfield.value(), 1);
    bitfield.remove(&[MemberPermission::MemberInvite]);
    assert_eq!(bitfield.value(), 0);
}

#[test]
fn bitfield_remove_keeps_other_bits() {
    let mut bitfield = Bitfield::<MemberPermission>::new(0);
    bitfield.add(&[MemberPermission::MemberInvite, MemberPermission::MemberKick]);
    assert_eq!(bitfield.value(), 0b101);
    bitfield.remove(&[MemberPermission::MemberInvite]);
    assert_eq!(bitfield.value(), 0b100);
    assert!(bitfield.contains(MemberPermission::MemberKick));
    assert!(!bitfield.contains(MemberPermission::MemberInvite));
}

#[test]
fn bitfield_add_skips_values_above_max() {
    let mut bitfield = Bitfield::<MemberPermission>::new(0);
    bitfield.add(&[u64::MAX, 1u64 << 10, 2u64]);
    assert_eq!(bitfield.value(), 2);
}

#[test]
fn bitfield_add_is_idempotent() {
    let mut bitfield = Bitfield::<ApiKeyScope>::new(0);
    bitfield.add(&[ApiKeyScope::RepoAccess]);
    let once = bitfield.value();
    bitfield.add(&[ApiKeyScope::RepoAccess]);
    assert_eq!(bitfield.value(), once);
}

#[test]
fn bitfield_from_iter_collects_bits() {
    let b = Bitfield::<ApiKeyScope>::from_iter(&[1, 2, 4]);
    assert_eq!(b.value(), 7);
}

#[test]
fn bitfield_flags_are_named_in_order() {
    let b = Bitfield::<MemberPermission>::new(0b101);
    assert_eq!(b.flags(), vec![("member:invite", 1u64), ("member:kick", 4u64)]);
}

#[test]
fn scope_max_bit() {
    assert_eq!(<ApiKeyScope as Bitflags>::max(), 1u64 << 49);
    assert_eq!(<MemberPermission as Bitflags>::max(), 1u64 << 9);
}

#[test]
fn scope_names_and_bits() {
    assert_eq!(ApiKeyScope::UserAccess.as_bit(), 1);
    assert_eq!(ApiKeyScope::UserAccess.name(), "user:access");
    assert_eq!(ApiKeyScope::AdminOrgUpdate.as_bit(), 1u64 << 49);
    assert_eq!(MemberPermission::MetadataDelete.name(), "metadata:delete");
}

#[test]
fn scope_name_roundtrip() {
    for s in ApiKeyScope::all() {
        assert_eq!(ApiKeyScope::from_name(s.name()), Some(s));
        assert_eq!(ApiKeyScope::from_bit(s.as_bit()), Some(s));
    }
    for p in MemberPermission::all() {
        assert_eq!(MemberPermission::from_name(p.name()), Some(p));
        assert_eq!(MemberPermission::from_bit(p.as_bit()), Some(p));
    }
    assert_eq!(ApiKeyScope::from_name("nope"), None);
    assert_eq!(MemberPermission::from_bit(3), None);
}

#[test]
fn api_version_forms() {
    assert_eq!(Version::default(), Version::V1);
    assert_eq!(Version::V1.as_str(), "v1");
    assert_eq!(Version::as_slice(), vec![Version::V1]);
    assert_eq!(Version::V1.as_u8(), 1);
    assert_eq!(Version::decode(1), Some(Version::V1));
    assert_eq!(Version::decode(2), None);
    assert_eq!(Version::from_u8(1), Version::V1);
}

#[test]
fn responses() {
    let r = ok(200, 5u32);
    assert!(r.success);
    assert_eq!(r.data, Some(5));
    assert!(r.errors.is_empty());

    let n = no_content();
    assert_eq!(n.status, STATUS_NO_CONTENT);

    let e = err(404, Error::new(ErrorCode::EntityNotFound, "missing"));
    assert!(!e.success);
    assert_eq!(e.errors.len(), 1);
    assert_eq!(e.errors[0].code, ErrorCode::EntityNotFound);
    assert_eq!(e.errors[0].message, "missing");

    let i = internal_server_error();
    assert_eq!(i.status, STATUS_INTERNAL_SERVER_ERROR);
    assert_eq!(i.errors[0].code, ErrorCode::InternalServerError);
    assert_eq!(i.errors[0].message, "Internal Server Error");
}

#[test]
fn system_failure_lists_source() {
    let r = system_failure("boom", Some("because".to_string()));
    assert_eq!(r.errors[0].code, ErrorCode::SystemFailure);
    assert_eq!(r.errors[0].message, "system failure occurred: boom");
    assert_eq!(
        r.errors[0].details,
        Some(serde_json::Value::Array(vec![serde_json::Value::String("because".to_string())]))
    );
}

#[test]
fn core_version_string() {
    assert_eq!(version(), format!("v{}+{}", VERSION, COMMIT_HASH));
    assert_eq!(version(), "v0.1.0+aa15e981");
    assert_eq!(format_version("1.2.3", ""), "v1.2.3");
    assert_eq!(format_version("1.2.3", "d1cebae"), "v1.2.3");
    assert_eq!(format_version("1.2.3", "abc"), "v1.2.3+abc");
}

#[test]
fn random_strings_are_alphanumeric() {
    let s = rand_string(32);
    assert_eq!(s.chars().count(), 32);
    assert!(s.chars().all(|c| c.is_ascii_alphanumeric()));
}

#[test]
fn into_report_keeps_ok() {
    let r: Result<u8, std::io::Error> = Ok(3);
    assert_eq!(r.into_report().unwrap(), 3);
    let e: Result<u8, std::io::Error> = Err(std::io::Error::new(std::io::ErrorKind::Other, "x"));
    assert!(e.into_report().is_err());
}

#[test]
fn durations() {
    let d = Duration::from_secs(5);
    assert_eq!(d.as_secs(), 5);
    assert_eq!(d.subsec_nanos(), 0);
    let m = Duration::from_millis(1500);
    assert_eq!(m.as_secs(), 1);
    assert_eq!(m.subsec_nanos(), 500_000_000);
    assert_eq!(m.as_millis(), 1500);
    assert_eq!(Duration::default().as_millis(), 0);
}

#[test]
fn duration_humane_forms() {
    let d = Duration::from_str("1m 30s").unwrap();
    assert_eq!(d.as_secs(), 90);
    assert_eq!(d.to_string(), "1m 30s");
    assert!(matches!(Duration::from_str("soon"), Err(DurationParseError::Invalid(_))));
}

#[test]
fn duration_sums_past_a_u64_are_refused() {
    assert!(matches!(
        Duration::from_str("18446744073709551615s 1000000000ns"),
        Err(DurationParseError::TooLarge)
    ));
    assert!(matches!(
        Duration::from_str("5124095576030431h 15s 1000000000ns"),
        Err(DurationParseError::TooLarge)
    ));
    assert!(within_duration_bound("18446744073709551615s"));
    assert!(!within_duration_bound("18446744073709551616s"));
    assert!(within_duration_bound("600000000000ns"));
    assert_eq!(Duration::from_str("600000000000ns").unwrap().as_secs(), 600);
    assert_eq!(Duration::from_str("18446744073709551614s").unwrap().as_secs(), 18446744073709551614);
    assert!(within_duration_bound("1000000000000000000000ns"));
    assert!(!within_duration_bound("1000000000000000000000y"));
    assert!(!within_duration_bound("584542046091 m s"));
    assert!(within_duration_bound("584542046091 ms"));
    assert!(within_duration_bound("1 2s"));
    let d = Duration::from_str("1.5s 500ms").unwrap();
    assert_eq!(d.as_secs(), 2);
    assert_eq!(d.subsec_nanos(), 0);
}

#[test]
fn distribution_detection() {
    assert_eq!(Distribution::detect(true, true), Distribution::Kubernetes);
    assert_eq!(Distribution::detect(false, true), Distribution::Docker);
    assert_eq!(Distribution::detect(false, false), Distribution::Git);
    assert_eq!(Distribution::from_build_tag(Some("nix")), Distribution::Nix);
    assert_eq!(Distribution::from_build_tag(Some("other")), Distribution::FromSource);
    assert_eq!(Distribution::from_build_tag(None), Distribution::FromSource);
    assert_eq!(Distribution::default(), Distribution::FromSource);
    assert_eq!(Distribution::FromSource.description(), "«from source»");
    assert_eq!(Distribution::Nix.description(), "nix package manager");
    assert_eq!(Distribution::FromSource.name(), "from_source");
}

#[test]
fn cgroup_docker_detection() {
    assert!(cgroup_mentions_docker("12:cpu:/docker/abcdef"));
    assert!(!cgroup_mentions_docker("0::/init.scope"));
}

#[test]
fn error_codes_read_back() {
    for c in ErrorCode::all() {
        assert_eq!(ErrorCode::from_code(c.code()), Some(c));
    }
    assert_eq!(ErrorCode::EntityNotFound.code(), "ENTITY_NOT_FOUND");
    assert_eq!(ErrorCode::InvalidHTTPMethod.code(), "INVALID_H_T_T_P_METHOD");
    assert_eq!(ErrorCode::from_code("NOPE"), None);
}

#[test]
fn host_probes() {
    assert!(k8s_detected(true, None, None));
    assert!(k8s_detected(false, Some(true), Some(false)));
    assert!(k8s_detected(false, Some(false), Some(true)));
    assert!(!k8s_detected(false, Some(false), Some(false)));
    assert!(k8s_detected(false, None, Some(true)));
    assert!(!k8s_detected(false, None, None));
    assert!(docker_detected(true, Some("")));
    assert!(docker_detected(false, Some("1:name=systemd:/docker/abc")));
    assert!(docker_detected(true, None));
    assert!(!docker_detected(false, None));
    assert!(!docker_detected(false, Some("0::/")));
}

#[test]
fn system_failure_without_source_lists_nothing() {
    let r = system_failure("boom", None);
    assert_eq!(r.errors[0].details, Some(serde_json::Value::Array(vec![])));
    assert_eq!(failure_sources(None), Vec::<String>::new());
    assert_eq!(failure_sources(Some("x".to_string())), vec!["x".to_string()]);
}

#[test]
fn scopes_display_as_their_bit() {
    assert_eq!(ApiKeyScope::RepoAccess.to_string(), "64");
    assert_eq!(ApiKeyScope::UserAccess.to_string(), "1");
    assert_eq!(ApiKeyScope::AdminOrgUpdate.to_string(), "562949953421312");
    assert_eq!(MemberPermission::MetadataDelete.to_string(), "512");
}

#[test]
fn kept_flags_cover_the_value() {
    let all = MemberPermission::values().iter().fold(0u64, |a, v| a | v);
    for v in [0u64, 5, 0x3ff, 0xfff0, u64::MAX] {
        let b = Bitfield::<MemberPermission>::new(v);
        let or = b.flags().iter().fold(0u64, |a, (_, bit)| a | bit);
        assert_eq!(or, v & all);
    }
    let all = ApiKeyScope::values().iter().fold(0u64, |a, v| a | v);
    let b = Bitfield::<ApiKeyScope>::new(0x8000_0000_0000_0041);
    let or = b.flags().iter().fold(0u64, |a, (_, bit)| a | bit);
    assert_eq!(or, 0x41);
    assert_eq!(or, b.value() & all);
}

#[test]
fn durations_from_either_form() {
    let d = Duration::from_repr(&DurationRepr::Millis(2500)).unwrap();
    assert_eq!(d.as_secs(), 2);
    assert_eq!(d.subsec_nanos(), 500_000_000);
    let h = Duration::from_repr(&DurationRepr::Humane("2h 37min".to_string())).unwrap();
    assert_eq!(h.as_secs(), 9420);
    assert!(matches!(Duration::from_repr(&DurationRepr::Humane("x".to_string())), Err(DurationParseError::Invalid(_))));
}

#[test]
fn scopes_compare_and_convert_as_bits() {
    assert!(ApiKeyScope::RepoAccess == 64u64);
    assert!(ApiKeyScope::RepoAccess != 32u64);
    assert_eq!(u64::from(ApiKeyScope::UserUpdate), 2);
    assert_eq!(u64::from(MemberPermission::MetadataDelete), 512);
    assert!(MemberPermission::MemberKick == 4u64);
}

#[test]
fn version_displays_as_its_str() {
    assert_eq!(Version::V1.to_string(), Version::V1.as_str());
}

#[test]
fn flag_names_ascend() {
    let names: Vec<&str> = ApiKeyScope::flags().iter().map(|(n, _)| *n).collect();
    assert!(names.windows(2).all(|w| w[0] < w[1]));
    let names: Vec<&str> = MemberPermission::flags().iter().map(|(n, _)| *n).collect();
    assert!(names.windows(2).all(|w| w[0] < w[1]));
    let kept = Bitfield::<ApiKeyScope>::new(u64::MAX).flags();
    assert!(kept.windows(2).all(|w| w[0].0 < w[1].0));
}
