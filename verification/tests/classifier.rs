use nft_staking::blocks::{get_block, get_blocks_arrays};

#[test]
fn carbon_lies_in_the_second_block() {
    assert_eq!(get_block(6), Some((20, 36)));
}

#[test]
fn each_block_reports_its_weight_and_size() {
    assert_eq!(get_block(1), Some((10, 15)));
    assert_eq!(get_block(119), Some((10, 15)));
    assert_eq!(get_block(5), Some((20, 36)));
    assert_eq!(get_block(118), Some((20, 36)));
    assert_eq!(get_block(21), Some((30, 40)));
    assert_eq!(get_block(112), Some((30, 40)));
    assert_eq!(get_block(57), Some((40, 28)));
    assert_eq!(get_block(102), Some((40, 28)));
}

#[test]
fn block_sizes_match_the_member_lists() {
    let (s, p, d, f) = get_blocks_arrays();
    assert_eq!((s.len(), p.len(), d.len(), f.len()), (15, 36, 40, 28));
    assert_eq!(s.len() + p.len() + d.len() + f.len(), 119);
}

#[test]
fn block_lists_hold_the_known_members() {
    let (s, p, d, f) = get_blocks_arrays();
    assert_eq!(s, [1, 2, 3, 4, 11, 12, 19, 20, 37, 38, 55, 56, 87, 88, 119]);
    assert_eq!(p[0], 5);
    assert_eq!(p[11], 18);
    assert_eq!(p[30], 113);
    assert_eq!(p[35], 118);
    assert_eq!(d[0], 21);
    assert_eq!(d[39], 112);
    assert_eq!(f[0], 57);
    assert_eq!(f[27], 102);
}

#[test]
fn block_lists_are_strictly_ascending() {
    let (s, p, d, f) = get_blocks_arrays();
    for list in [&s[..], &p[..], &d[..], &f[..]] {
        for pair in list.windows(2) {
            assert!(pair[0] < pair[1]);
        }
    }
}

#[test]
fn every_code_from_1_to_119_lies_in_exactly_one_block() {
    let (s, p, d, f) = get_blocks_arrays();
    for code in 1u8..=119 {
        let holders = [s.contains(&code), p.contains(&code), d.contains(&code), f.contains(&code)];
        assert_eq!(holders.iter().filter(|held| **held).count(), 1, "code {}", code);
        let expected = if holders[0] {
            (10, 15)
        } else if holders[1] {
            (20, 36)
        } else if holders[2] {
            (30, 40)
        } else {
            (40, 28)
        };
        assert_eq!(get_block(code), Some(expected), "code {}", code);
    }
}

#[test]
fn codes_outside_1_to_119_lie_in_no_block() {
    assert_eq!(get_block(0), None);
    for code in 120u8..=255 {
        assert_eq!(get_block(code), None, "code {}", code);
    }
}
