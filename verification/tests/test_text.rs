use tritet::constants::{DARK_COLORS, LIGHT_COLORS, NCOLOR, TRITET_TO_TETGEN, TRITET_TO_TRIANGLE};
use tritet::global::{generate_handle, FIRST_HANDLE};
use tritet::label::{attribute_label, id_label, point_label};
use tritet::palette::color_indices;
use tritet::text::{digit_text, push_decimal, push_signed_token, push_token};
use tritet::vtu::{push_head, push_repeated, push_totals};

#[test]
fn decimal_text_of_numbers() {
    let mut text = String::new();
    push_decimal(&mut text, 0);
    assert_eq!(text, "0");
    push_decimal(&mut text, 7);
    assert_eq!(text, "07");
    let mut text = String::new();
    push_decimal(&mut text, 1090);
    assert_eq!(text, "1090");
    let mut text = String::new();
    push_decimal(&mut text, u128::MAX);
    assert_eq!(text, format!("{}", u128::MAX));
    for d in 0..10_u8 {
        assert_eq!(digit_text(d), format!("{}", d));
    }
}

#[test]
fn tokens_end_with_one_space() {
    let mut text = String::from("a");
    push_token(&mut text, 42);
    push_signed_token(&mut text, -42);
    push_signed_token(&mut text, 0);
    push_signed_token(&mut text, i32::MIN);
    push_signed_token(&mut text, i32::MAX);
    assert_eq!(text, "a42 -42 0 -2147483648 2147483647 ");
}

#[test]
fn blocks_of_a_document() {
    let mut text = String::new();
    push_repeated(&mut text, 5, 3);
    assert_eq!(text, "5 5 5 ");
    let mut text = String::new();
    push_repeated(&mut text, 5, 0);
    assert_eq!(text, "");
    let mut text = String::new();
    push_totals(&mut text, 0, 4, 3);
    assert_eq!(text, "4 8 12 ");
    let mut text = String::new();
    push_totals(&mut text, 24, 3, 2);
    assert_eq!(text, "27 30 ");
    let mut text = String::new();
    push_head(&mut text, 8, 18);
    assert_eq!(
        text,
        "<?xml version=\"1.0\"?>\n\
         <VTKFile type=\"UnstructuredGrid\" version=\"0.1\" byte_order=\"LittleEndian\">\n\
         <UnstructuredGrid>\n\
         <Piece NumberOfPoints=\"8\" NumberOfCells=\"18\">\n\
         <Points>\n\
         <DataArray type=\"Float64\" NumberOfComponents=\"3\" format=\"ascii\">\n"
    );
}

#[test]
fn labels_of_a_drawing() {
    assert_eq!(id_label(0), "0");
    assert_eq!(id_label(123), "123");
    assert_eq!(attribute_label(7), "[7]");
    assert_eq!(attribute_label(222), format!("[{}]", 222));
    assert_eq!(point_label(5, 0), "5");
    assert_eq!(point_label(5, -10), format!("{}({})", 5, -10));
    assert_eq!(point_label(12, 3), "12(3)");
    assert_eq!(point_label(0, i32::MIN), "0(-2147483648)");
}

#[test]
fn colours_follow_the_first_sight_of_an_attribute() {
    assert_eq!(color_indices(&vec![]), Vec::<usize>::new());
    assert_eq!(color_indices(&vec![9]), vec![0]);
    assert_eq!(color_indices(&vec![1, 7, 1, 4, 4, 2, 7]), vec![0, 1, 0, 2, 2, 3, 1]);
    // the palette starts over when it is used up
    let attributes: Vec<usize> = (100..120).collect();
    let colors = color_indices(&attributes);
    assert_eq!(NCOLOR, 17);
    assert_eq!(colors[16], 16);
    assert_eq!(colors[17], 0);
    assert_eq!(colors[19], 2);
    assert_eq!(LIGHT_COLORS.len(), NCOLOR);
    assert_eq!(DARK_COLORS.len(), NCOLOR);
    assert_eq!(LIGHT_COLORS[colors[17]], "#cbe4f9");
}

#[test]
fn handles_count_up() {
    let mut counter = FIRST_HANDLE;
    assert_eq!(generate_handle(&mut counter), 1);
    assert_eq!(generate_handle(&mut counter), 2);
    assert_eq!(counter, 3);
    let mut counter = usize::MAX;
    assert_eq!(generate_handle(&mut counter), usize::MAX);
    assert_eq!(counter, 0);
}

#[test]
fn the_tables_are_permutations_that_keep_the_corners() {
    assert_eq!(TRITET_TO_TRIANGLE, [0, 1, 2, 5, 3, 4]);
    assert_eq!(TRITET_TO_TETGEN, [0, 1, 2, 3, 6, 7, 9, 5, 8, 4]);
    let mut triangle = TRITET_TO_TRIANGLE.to_vec();
    triangle.sort();
    assert_eq!(triangle, vec![0, 1, 2, 3, 4, 5]);
    let mut tetrahedron = TRITET_TO_TETGEN.to_vec();
    tetrahedron.sort();
    assert_eq!(tetrahedron, vec![0, 1, 2, 3, 4, 5, 6, 7, 8, 9]);
}
