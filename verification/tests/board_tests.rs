use ferrolife::grid::{
    cell_byte_offset, cell_from_grid_position, div_ceil, workgroup_counts, GRID_HEIGHT, GRID_WIDTH,
};
use ferrolife::hash::hash_bits;
use ferrolife::instance::{instances_from_le_bytes, pack_color, Instance};
use ferrolife::rules::{rule_has_count, with_rule_count, DEFAULT_BORN_RULES, DEFAULT_SURVIVE_RULES};
use ferrolife::simulation::{samples_fit_image, BoardError, CurrentInstanceBuffer, Pixel, Simulation};

#[test]
fn pack_color_places_channels_low_to_high() {
    assert_eq!(pack_color(0x11, 0x22, 0x33, 0x44), 0x4433_2211);
    assert_eq!(pack_color(0, 0, 0, 255), 0xFF00_0000);
    assert_eq!(pack_color(255, 255, 255, 255), u32::MAX);
    assert_eq!(pack_color(0, 0, 0, 0), 0);
}

#[test]
fn packed_channels_read_back() {
    let c = pack_color(12, 34, 56, 78);
    assert_eq!(c & 0xff, 12);
    assert_eq!((c >> 8) & 0xff, 34);
    assert_eq!((c >> 16) & 0xff, 56);
    assert_eq!(c >> 24, 78);
}

#[test]
fn le_bytes_decode_to_instances() {
    let bytes = [0x11u8, 0x22, 0x33, 0x44, 0xff, 0, 0, 0x80, 9];
    let instances = instances_from_le_bytes(&bytes);
    assert_eq!(instances.len(), 2);
    assert_eq!(instances[0], Instance { color: 0x4433_2211 });
    assert_eq!(instances[1], Instance { color: 0x8000_00ff });
    assert!(instances_from_le_bytes(&[1, 2, 3]).is_empty());
}

#[test]
fn le_round_trip_of_colour() {
    let color: u32 = 0xDEAD_BEEF;
    let decoded = instances_from_le_bytes(&color.to_le_bytes());
    assert_eq!(decoded, vec![Instance { color }]);
}

#[test]
fn div_ceil_rounds_up() {
    assert_eq!(div_ceil(400, 16), 25);
    assert_eq!(div_ceil(300, 16), 19);
    assert_eq!(div_ceil(32, 16), 2);
    assert_eq!(div_ceil(0, 16), 0);
    assert_eq!(div_ceil(u32::MAX, 2), 1 << 31);
    assert_eq!(div_ceil(u32::MAX, 1), u32::MAX);
}

#[test]
fn dispatch_covers_board() {
    let (nx, ny) = workgroup_counts();
    assert_eq!((nx, ny), (25, 19));
    assert!(nx * 16 >= GRID_WIDTH && (nx - 1) * 16 < GRID_WIDTH);
    assert!(ny * 16 >= GRID_HEIGHT && (ny - 1) * 16 < GRID_HEIGHT);
}

#[test]
fn grid_positions_on_and_off_the_board() {
    assert_eq!(cell_from_grid_position(0, 0), Some((0, 0)));
    assert_eq!(cell_from_grid_position(399, 299), Some((399, 299)));
    assert_eq!(cell_from_grid_position(-1, 5), None);
    assert_eq!(cell_from_grid_position(5, -1), None);
    assert_eq!(cell_from_grid_position(400, 0), None);
    assert_eq!(cell_from_grid_position(0, 300), None);
}

#[test]
fn cell_offsets() {
    assert_eq!(cell_byte_offset(0, 0), Some(0));
    assert_eq!(cell_byte_offset(3, 2), Some((2 * 400 + 3) * 4));
    assert_eq!(cell_byte_offset(399, 299), Some((299 * 400 + 399) * 4));
    assert_eq!(cell_byte_offset(400, 0), None);
    assert_eq!(cell_byte_offset(0, 300), None);
}

#[test]
fn default_rules_are_conway() {
    assert_eq!(DEFAULT_BORN_RULES, 0b1000);
    assert_eq!(DEFAULT_SURVIVE_RULES, 0b1100);
    for count in 0..=8u32 {
        assert_eq!(rule_has_count(DEFAULT_BORN_RULES, count), count == 3);
        assert_eq!(rule_has_count(DEFAULT_SURVIVE_RULES, count), count == 2 || count == 3);
    }
}

#[test]
fn rule_count_update_touches_one_bit() {
    let rules = with_rule_count(DEFAULT_BORN_RULES, 6, true);
    assert_eq!(rules, 0b100_1000);
    assert!(rule_has_count(rules, 6));
    assert!(rule_has_count(rules, 3));
    let cleared = with_rule_count(rules, 3, false);
    assert_eq!(cleared, 0b100_0000);
    assert_eq!(with_rule_count(with_rule_count(0b1000, 8, true), 8, false), 0b1000);
    assert_eq!(with_rule_count(0b1000, 3, true), 0b1000);
    assert_eq!(with_rule_count(0b1000, 2, false), 0b1000);
}

#[test]
fn hash_bits_known_values() {
    assert_eq!(hash_bits(0, 0, 0), 0);
    assert_eq!(hash_bits(1, 0, 0), 0x01fc_e552);
    assert_eq!(hash_bits(3, 7, 0xA511_E9B3), 0x43c5_7cfc);
    assert_eq!(hash_bits(399, 299, 0x8DA6_B343), 0x2fd1_759b);
}

#[test]
fn simulation_ping_pong() {
    let mut sim = Simulation::new();
    assert_eq!(sim.current_instance_buf_to_use(), CurrentInstanceBuffer::A);
    assert_eq!(sim.record(), CurrentInstanceBuffer::B);
    assert_eq!(sim.current_instance_buf_to_use(), CurrentInstanceBuffer::B);
    assert_eq!(sim.record(), CurrentInstanceBuffer::A);
    assert_eq!(sim.current_instance_buf_to_use(), CurrentInstanceBuffer::A);
    assert_eq!(sim.num_instances(), 120_000);
}

#[test]
fn simulation_rules_setters() {
    let mut sim = Simulation::new();
    assert_eq!(sim.born_rules(), DEFAULT_BORN_RULES);
    assert_eq!(sim.survive_rules(), DEFAULT_SURVIVE_RULES);
    sim.set_born_rules(0b100_1000);
    sim.set_survive_rules(0b1_1000);
    assert_eq!(sim.born_rules(), 0b100_1000);
    assert_eq!(sim.survive_rules(), 0b1_1000);
}

#[test]
fn clear_board_is_opaque_black_and_resets_buffer() {
    let mut sim = Simulation::new();
    sim.record();
    let cleared = sim.clear_board();
    assert_eq!(cleared.len(), 120_000);
    assert!(cleared.iter().all(|i| i.color == 0xFF00_0000));
    assert_eq!(sim.current_instance_buf_to_use(), CurrentInstanceBuffer::A);
}

#[test]
fn set_cell_color_offsets() {
    let sim = Simulation::new();
    assert_eq!(sim.set_cell_color(10, 20), Some((20 * 400 + 10) * 4));
    assert_eq!(sim.set_cell_color(400, 20), None);
    assert_eq!(sim.set_cell_color(10, 300), None);
}

#[test]
fn wrong_length_rgba_is_refused() {
    let mut sim = Simulation::new();
    sim.record();
    let data = vec![0u8; 15];
    match sim.set_state_from_rgba_image(2, 2, &data) {
        Err(BoardError::InvalidImageDataLength { expected, got }) => {
            assert_eq!(expected, 16);
            assert_eq!(got, 15);
        }
        other => panic!("unexpected result {:?}", other.map(|p| p.len())),
    }
    assert_eq!(sim.current_instance_buf_to_use(), CurrentInstanceBuffer::B);
}

#[test]
fn board_sized_image_is_copied_upside_down() {
    let w = GRID_WIDTH as usize;
    let h = GRID_HEIGHT as usize;
    let mut data = vec![0u8; w * h * 4];
    for y in 0..h {
        for x in 0..w {
            let o = (y * w + x) * 4;
            data[o] = (x % 256) as u8;
            data[o + 1] = (y % 256) as u8;
            data[o + 2] = (x / 256) as u8;
            data[o + 3] = (y / 256) as u8;
        }
    }
    let mut sim = Simulation::new();
    sim.record();
    let board = sim.set_state_from_rgba_image(400, 300, &data).unwrap();
    assert_eq!(board.len(), w * h);
    assert_eq!(sim.current_instance_buf_to_use(), CurrentInstanceBuffer::A);
    for (x, y) in [(0usize, 0usize), (399, 0), (0, 299), (123, 45), (399, 299)] {
        let p = board[y * w + x];
        let src_y = h - 1 - y;
        assert_eq!(
            p,
            Pixel {
                r: (x % 256) as u8,
                g: (src_y % 256) as u8,
                b: (x / 256) as u8,
                a: (src_y / 256) as u8
            }
        );
    }
}

#[test]
fn small_image_is_scaled_up() {
    // 2 by 1 image: left pixel red, right pixel blue.
    let data = [255u8, 0, 0, 255, 0, 0, 255, 128];
    let mut sim = Simulation::new();
    let board = sim.set_state_from_rgba_image(2, 1, &data).unwrap();
    let red = Pixel { r: 255, g: 0, b: 0, a: 255 };
    let blue = Pixel { r: 0, g: 0, b: 255, a: 128 };
    assert_eq!(board[0], red);
    assert_eq!(board[199], red);
    assert_eq!(board[200], blue);
    assert_eq!(board[399], blue);
    assert_eq!(board[299 * 400 + 250], blue);
}

#[test]
fn sample_fit_check() {
    assert!(samples_fit_image(400, 300, 480_000));
    assert!(samples_fit_image(1, 1, 4));
    assert!(!samples_fit_image(0, 5, 0));
    assert!(!samples_fit_image(5, 0, 0));
    assert!(!samples_fit_image(u32::MAX, u32::MAX, usize::MAX));
}
