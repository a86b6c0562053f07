use acoustic_field_viewer::scalar::ONE;
use acoustic_field_viewer::sound_source::SoundSource;
use acoustic_field_viewer::view::acoustic_field_slice_viewer::phase_byte;
use acoustic_field_viewer::view::acoustic_field_slice_viewer::phase_texels;
use acoustic_field_viewer::view::acoustic_field_slice_viewer::position_high;
use acoustic_field_viewer::view::acoustic_field_slice_viewer::position_low;
use acoustic_field_viewer::view::acoustic_field_slice_viewer::position_sub;
use acoustic_field_viewer::view::acoustic_field_slice_viewer::position_texels;

const SIZE: i64 = 10_180_000;

#[test]
fn two_sources_encode_as_expected() {
    let sources = vec![
        SoundSource::new([0, 0, 0], [0, 0, ONE], 0),
        SoundSource::new([SIZE, 0, 0], [0, 0, ONE], ONE / 2),
    ];
    let position = position_texels(&sources, SIZE);
    assert_eq!(position.pos, vec![[0, 0, 0, 0], [1, 0, 0, 0]]);
    assert_eq!(position.pos_256, vec![[0, 0, 0, 0], [0, 0, 0, 0]]);
    assert_eq!(position.pos_sub, vec![[0, 0, 0, 0], [0, 0, 0, 0]]);
    let phase = phase_texels(&sources);
    assert_eq!(phase, vec![[0, 0, 0, 0], [127, 0, 0, 0]]);
}

#[test]
fn position_bytes_split_the_cell() {
    // 300 cells and a bit: the cell is 300 = 1 * 256 + 44
    let p = 300 * SIZE + 1_000_000;
    assert_eq!(position_low(p, SIZE), 44);
    assert_eq!(position_high(p, SIZE), 1);
    // a coordinate half way between two cells goes to the further one
    assert_eq!(position_low(SIZE / 2, SIZE), 1);
    assert_eq!(position_low(SIZE / 2 - 1, SIZE), 0);
    // negative coordinates have no cell below zero
    assert_eq!(position_low(-3 * SIZE, SIZE), 0);
    assert_eq!(position_high(-3 * SIZE, SIZE), 0);
    // beyond the last cell both bytes are full
    assert_eq!(position_low(70_000 * SIZE, SIZE), 255);
    assert_eq!(position_high(70_000 * SIZE, SIZE), 255);
}

#[test]
fn position_sub_counts_256ths() {
    assert_eq!(position_sub(SIZE / 4, SIZE), 64);
    assert_eq!(position_sub(SIZE + SIZE / 2, SIZE), 128);
    assert_eq!(position_sub(-SIZE / 4, SIZE), 0);
    assert_eq!(position_sub(SIZE - 1, SIZE), 0);
}

#[test]
fn phase_byte_rounds_and_wraps() {
    assert_eq!(phase_byte(0), 0);
    assert_eq!(phase_byte(ONE / 2), 127);
    assert_eq!(phase_byte(ONE / 2 + 1), 128);
    assert_eq!(phase_byte(ONE - 1), 255);
    assert_eq!(phase_byte(ONE), 0);
    assert_eq!(phase_byte(ONE + ONE / 4), phase_byte(ONE / 4));
    assert_eq!(phase_byte(-ONE / 4), phase_byte(3 * ONE / 4));
}
