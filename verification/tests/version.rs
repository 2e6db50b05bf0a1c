use neotron_common_bios::Version;

#[test]
fn version_packs_most_significant_first() {
    assert_eq!(Version::new(0, 6, 1).0, 0x0000_0601);
    assert_eq!(Version::new(1, 2, 3).0, 0x0001_0203);
    assert_eq!(Version::new(255, 255, 255).0, 0x00FF_FFFF);
    assert_eq!(Version::new(0, 0, 0).0, 0);
    assert_eq!(Version::new(1, 2, 3).0.to_be_bytes(), [0, 1, 2, 3]);
}

#[test]
fn version_round_trips_every_part() {
    for part in 0..=255u8 {
        let v = Version::new(part, 7, 9);
        assert_eq!((v.major(), v.minor(), v.patch()), (part, 7, 9));
        let v = Version::new(7, part, 9);
        assert_eq!((v.major(), v.minor(), v.patch()), (7, part, 9));
        let v = Version::new(7, 9, part);
        assert_eq!((v.major(), v.minor(), v.patch()), (7, 9, part));
    }
}

#[test]
fn version_parts_ignore_the_top_byte() {
    let v = Version(0xAB01_0203);
    assert_eq!(v.major(), 1);
    assert_eq!(v.minor(), 2);
    assert_eq!(v.patch(), 3);
}

#[test]
fn version_ordering() {
    assert!(Version::new(1, 0, 0) > Version::new(0, 9, 9));
    assert!(Version::new(0, 9, 9) > Version::new(0, 9, 0));
    assert!(Version::new(1, 0, 0) > Version::new(0, 9, 0));
    assert!(Version::new(0, 9, 0) < Version::new(0, 9, 9));
    assert!(Version::new(0, 10, 0) > Version::new(0, 9, 255));
    assert!(Version::new(2, 0, 0) > Version::new(1, 255, 255));
    assert!(Version::new(1, 2, 3) == Version::new(1, 2, 3));
    assert!(Version::new(1, 2, 3) <= Version::new(1, 2, 3));
    assert!(Version::new(1, 2, 3) >= Version::new(1, 2, 3));
    assert_eq!(
        Version::new(1, 2, 3).cmp(&Version::new(1, 2, 4)),
        std::cmp::Ordering::Less
    );
    assert_eq!(
        Version::new(1, 2, 3).partial_cmp(&Version::new(1, 2, 2)),
        Some(std::cmp::Ordering::Greater)
    );
}

#[test]
fn version_order_follows_the_parts() {
    let parts = [0u8, 1, 9, 10, 255];
    for a0 in parts {
        for a1 in parts {
            for a2 in parts {
                for b0 in parts {
                    for b1 in parts {
                        for b2 in parts {
                            let by_parts = (a0, a1, a2).cmp(&(b0, b1, b2));
                            let by_version = Version::new(a0, a1, a2).cmp(&Version::new(b0, b1, b2));
                            assert_eq!(by_parts, by_version);
                            assert_eq!(
                                Version::new(a0, a1, a2).partial_cmp(&Version::new(b0, b1, b2)),
                                Some(by_parts)
                            );
                        }
                    }
                }
            }
        }
    }
}
