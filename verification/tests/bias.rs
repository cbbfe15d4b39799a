use terrain_raster::bias::{to_signed, to_signed_samples, to_unsigned, to_unsigned_samples};

#[test]
fn bias_maps_the_ends_of_the_range() {
    assert_eq!(to_signed(0), i16::MIN);
    assert_eq!(to_signed(65535), i16::MAX);
    assert_eq!(to_unsigned(i16::MIN), 0);
    assert_eq!(to_unsigned(i16::MAX), 65535);
}

#[test]
fn bias_exact_values() {
    assert_eq!(to_signed(32768), 0);
    assert_eq!(to_signed(33768), 1000);
    assert_eq!(to_signed(32767), -1);
    assert_eq!(to_unsigned(0), 32768);
    assert_eq!(to_unsigned(-1), 32767);
    assert_eq!(to_unsigned(1000), 33768);
}

#[test]
fn bias_is_a_bijection_over_the_whole_range() {
    for u in 0..=u16::MAX {
        assert_eq!(to_unsigned(to_signed(u)), u);
    }
    for s in i16::MIN..=i16::MAX {
        assert_eq!(to_signed(to_unsigned(s)), s);
    }
}

#[test]
fn bias_keeps_the_strict_order() {
    for u in 0..u16::MAX {
        assert!(to_signed(u) < to_signed(u + 1));
    }
    for s in i16::MIN..i16::MAX {
        assert!(to_unsigned(s) < to_unsigned(s + 1));
    }
}

#[test]
fn bias_over_buffers() {
    let unsigned: Vec<u16> = vec![0, 1, 32768, 65535];
    let signed = to_signed_samples(&unsigned);
    assert_eq!(signed, vec![-32768, -32767, 0, 32767]);
    assert_eq!(to_unsigned_samples(&signed), unsigned);
    assert_eq!(to_signed_samples(&Vec::new()), Vec::<i16>::new());
}
