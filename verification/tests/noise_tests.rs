use rust_noise::noise::NoiseField;
use rust_noise::random::RandomSource;
use rust_noise::swirl::SwirlSamples;

const TEST_NOISE_W: usize = 512;
const TEST_NOISE_H: usize = 512;

fn counting_field(width: usize, height: usize) -> NoiseField {
    let mut draws: Vec<u32> = Vec::new();
    for k in 0..width * height {
        draws.push(1000 + k as u32);
    }
    NoiseField::from_draws(width, height, &draws)
}

fn table_of(pair: (i32, i32)) -> SwirlSamples {
    let coords: Vec<(i32, i32)> = vec![pair; 59 * 59];
    match SwirlSamples::new(coords) {
        Some(table) => table,
        None => panic!("a table of the right length was refused"),
    }
}

#[test]
fn test_noise_generation() {
    let mut rng = RandomSource::system();
    let noise_map = NoiseField::generate(TEST_NOISE_W, TEST_NOISE_H, &mut rng);

    // Check that noise map is properly initialized
    assert_eq!(noise_map.width(), TEST_NOISE_W);
    assert_eq!(noise_map.height(), TEST_NOISE_H);

    // Check that values are generated (not all zeros)
    let mut has_non_zero = false;
    for i in 0..10 {
        for j in 0..10 {
            if noise_map.cell(i, j) != Some(0) {
                has_non_zero = true;
                break;
            }
        }
    }
    assert!(has_non_zero, "Noise map should contain non-zero values");
}

#[test]
fn generated_field_has_a_value_in_every_cell() {
    let mut rng = RandomSource::seeded(11);
    let field = NoiseField::generate(512, 512, &mut rng);
    assert_eq!(field.width(), 512);
    assert_eq!(field.height(), 512);
    for x in 0..512 {
        for y in 0..512 {
            assert!(field.cell(x, y).is_some());
        }
    }
    assert_eq!(field.cell(512, 0), None);
    assert_eq!(field.cell(0, 512), None);
}

#[test]
fn generated_field_may_be_oblong() {
    let mut rng = RandomSource::seeded(5);
    let field = NoiseField::generate(3, 7, &mut rng);
    assert_eq!(field.width(), 3);
    assert_eq!(field.height(), 7);
    assert!(field.cell(2, 6).is_some());
    assert_eq!(field.cell(3, 0), None);
    assert_eq!(field.cell(0, 7), None);
}

#[test]
fn generated_field_of_one_cell() {
    let mut rng = RandomSource::seeded(5);
    let field = NoiseField::generate(1, 1, &mut rng);
    assert_eq!(field.width(), 1);
    assert_eq!(field.height(), 1);
    assert!(field.cell(0, 0).is_some());
    assert_eq!(field.cell(1, 0), None);
}

#[test]
fn generated_field_is_not_constant() {
    let mut rng = RandomSource::seeded(3);
    let field = NoiseField::generate(64, 64, &mut rng);
    let first = field.cell(0, 0);
    let mut differs = false;
    for x in 0..64 {
        for y in 0..64 {
            if field.cell(x, y) != first {
                differs = true;
            }
        }
    }
    assert!(differs);
}

#[test]
fn generation_repeats_for_a_repeated_seed() {
    let mut first_rng = RandomSource::seeded(2024);
    let mut second_rng = RandomSource::seeded(2024);
    let first = NoiseField::generate(16, 8, &mut first_rng);
    let second = NoiseField::generate(16, 8, &mut second_rng);
    for x in 0..16 {
        for y in 0..8 {
            assert_eq!(first.cell(x, y), second.cell(x, y));
        }
    }
}

#[test]
fn field_holds_the_draws_column_by_column() {
    let draws: Vec<u32> = vec![10, 11, 12, 20, 21, 22];
    let field = NoiseField::from_draws(2, 3, &draws);
    assert_eq!(field.width(), 2);
    assert_eq!(field.height(), 3);
    assert_eq!(field.cell(0, 0), Some(10));
    assert_eq!(field.cell(0, 1), Some(11));
    assert_eq!(field.cell(0, 2), Some(12));
    assert_eq!(field.cell(1, 0), Some(20));
    assert_eq!(field.cell(1, 1), Some(21));
    assert_eq!(field.cell(1, 2), Some(22));
}

#[test]
fn cells_off_the_field_are_missing() {
    let field = counting_field(4, 5);
    assert_eq!(field.cell(4, 0), None);
    assert_eq!(field.cell(0, 5), None);
    assert_eq!(field.cell(usize::MAX, usize::MAX), None);
    assert_eq!(field.cell(3, 4), Some(1000 + 19));
}

#[test]
fn sample_reduces_each_coordinate_by_its_own_dimension() {
    let field = counting_field(4, 5);
    assert_eq!(field.sample(0, 0), Some(1000));
    assert_eq!(field.sample(3, 4), Some(1019));
    assert_eq!(field.sample(4, 5), Some(1000));
    assert_eq!(field.sample(5, 7), Some(1000 + 5 + 2));
    assert_eq!(field.sample(i32::MAX, i32::MAX), Some(1000 + 3 * 5 + 2));
}

#[test]
fn sample_with_a_negative_remainder_names_no_cell() {
    let field = counting_field(4, 5);
    assert_eq!(field.sample(-1, 0), None);
    assert_eq!(field.sample(0, -1), None);
    assert_eq!(field.sample(-3, -3), None);
    assert_eq!(field.sample(-5, 2), None);
}

#[test]
fn sample_of_a_negative_multiple_names_the_first_cell() {
    let field = counting_field(4, 5);
    assert_eq!(field.sample(-4, 0), Some(1000));
    assert_eq!(field.sample(0, -5), Some(1000));
    assert_eq!(field.sample(-8, -10), Some(1000));
    assert_eq!(field.sample(-4, 3), Some(1003));
}

#[test]
fn field_accepts_tables_without_negative_coordinates() {
    let field = counting_field(512, 512);
    assert!(field.accepts(&table_of((0, 0))));
    assert!(field.accepts(&table_of((160, 120))));
    assert!(field.accepts(&table_of((i32::MAX, 700))));
}

#[test]
fn field_refuses_a_table_with_a_negative_remainder() {
    let field = counting_field(512, 512);
    assert!(!field.accepts(&table_of((-1, 0))));
    assert!(!field.accepts(&table_of((0, -511))));
    let mut coords: Vec<(i32, i32)> = vec![(5, 5); 59 * 59];
    coords[3480] = (5, -5);
    let table = SwirlSamples::new(coords).unwrap();
    assert!(!field.accepts(&table));
}

#[test]
fn field_accepts_negative_multiples_of_its_dimensions() {
    let field = counting_field(512, 512);
    assert!(field.accepts(&table_of((-512, -1024))));
}
