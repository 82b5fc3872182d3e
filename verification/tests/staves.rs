use staff::staff::{position_in_range, y, Chord, Duration, Measure};
use svg::node::element::{Ellipse, Line};
use svg::Document;

fn staff_line(height: i64) -> Line {
    Line::new().set("x1", 0).set("y1", height).set("x2", 500).set("y2", height).set("stroke", "#000")
}

fn outlined(cx: i64, cy: i64) -> Ellipse {
    Ellipse::new()
        .set("fill", "none")
        .set("stroke", "black")
        .set("cx", cx)
        .set("cy", cy)
        .set("rx", 10)
        .set("ry", 5)
}

fn filled(cx: i64, cy: i64) -> Ellipse {
    Ellipse::new().set("fill", "black").set("cx", cx).set("cy", cy).set("rx", 10).set("ry", 5)
}

fn stem(x: i64, y1: i64, y2: i64) -> Line {
    Line::new()
        .set("fill", "none")
        .set("stroke", "black")
        .set("x1", x)
        .set("y1", y1)
        .set("x2", x)
        .set("y2", y2)
}

fn with_staff_lines() -> Document {
    Document::new()
        .add(staff_line(50))
        .add(staff_line(70))
        .add(staff_line(90))
        .add(staff_line(110))
        .add(staff_line(130))
}

fn sample() -> Measure {
    Measure::new(vec![
        Chord::new(vec![5, 7, 9], Duration::Half),
        Chord::new(vec![-2, 0, 2], Duration::Quarter),
        Chord::new(vec![-2, 0, 2], Duration::Quarter),
    ])
}

#[test]
fn f() {
    let measure = sample();

    let mut document = svg::Document::new();
    measure.f(&mut document);

    let mut image: Vec<u8> = Vec::new();
    svg::write(&mut image, &document).unwrap();
    assert!(!image.is_empty());
}

#[test]
fn measure_draws_lines_heads_and_stems_in_order() {
    let mut document = Document::new();
    sample().f(&mut document);
    let expected = with_staff_lines()
        .add(outlined(20, 80))
        .add(outlined(20, 60))
        .add(outlined(20, 40))
        .add(stem(10, 120, 40))
        .add(filled(120, 150))
        .add(filled(120, 130))
        .add(filled(120, 110))
        .add(stem(130, 150, 70))
        .add(filled(170, 150))
        .add(filled(170, 130))
        .add(filled(170, 110))
        .add(stem(180, 150, 70));
    assert_eq!(document.to_string(), expected.to_string());
}

#[test]
fn measure_appends_to_what_the_document_holds() {
    let mut document = Document::new().add(filled(1, 2));
    Measure::new(vec![Chord::new(vec![3], Duration::Whole)]).f(&mut document);
    let expected = Document::new()
        .add(filled(1, 2))
        .add(staff_line(50))
        .add(staff_line(70))
        .add(staff_line(90))
        .add(staff_line(110))
        .add(staff_line(130))
        .add(outlined(20, 100));
    assert_eq!(document.to_string(), expected.to_string());
}

#[test]
fn empty_measure_draws_the_staff_alone() {
    let mut document = Document::new();
    let measure = Measure::new(Vec::new());
    measure.f(&mut document);
    assert_eq!(document.to_string(), with_staff_lines().to_string());
    assert_eq!(document.to_string().matches("<line").count(), 5);
    assert_eq!(measure.end_x(), 10);
}

#[test]
fn cursor_advances_by_duration() {
    assert_eq!(sample().end_x(), 210);
    assert_eq!(Duration::Whole.advance(), 200);
    assert_eq!(Duration::Half.advance(), 100);
    assert_eq!(Duration::Quarter.advance(), 50);
    let measure = Measure::new(vec![
        Chord::new(vec![0], Duration::Whole),
        Chord::new(vec![0], Duration::Quarter),
    ]);
    assert_eq!(measure.end_x(), 260);
    let mut document = Document::new();
    measure.f(&mut document);
    let expected = with_staff_lines()
        .add(outlined(20, 130))
        .add(filled(220, 130))
        .add(stem(230, 130, 90));
    assert_eq!(document.to_string(), expected.to_string());
}

#[test]
fn stem_direction() {
    let high = Chord::new(vec![5, 7, 9], Duration::Half);
    assert_eq!(high.low(), 5);
    assert_eq!(high.high(), 9);
    assert!(high.stem_on_left());
    let low = Chord::new(vec![-2, 0, 2], Duration::Quarter);
    assert_eq!(low.low(), -2);
    assert_eq!(low.high(), 2);
    assert!(!low.stem_on_left());

    let mut document = Document::new();
    high.f(&mut document, 10);
    let expected =
        Document::new().add(outlined(20, 80)).add(outlined(20, 60)).add(outlined(20, 40)).add(stem(
            10, 120, 40,
        ));
    assert_eq!(document.to_string(), expected.to_string());

    let mut document = Document::new();
    low.f(&mut document, 10);
    let expected =
        Document::new().add(filled(20, 150)).add(filled(20, 130)).add(filled(20, 110)).add(stem(
            30, 150, 70,
        ));
    assert_eq!(document.to_string(), expected.to_string());
}

#[test]
fn stem_direction_at_the_boundary() {
    assert!(!Chord::new(vec![5], Duration::Half).stem_on_left());
    assert!(Chord::new(vec![6], Duration::Half).stem_on_left());
    assert!(!Chord::new(vec![0, 10], Duration::Half).stem_on_left());
    assert!(Chord::new(vec![1, 10], Duration::Half).stem_on_left());
}

#[test]
fn extremes_do_not_depend_on_the_order() {
    let chord = Chord::new(vec![4, -7, 12, 0, -7, 3], Duration::Quarter);
    assert_eq!(chord.low(), -7);
    assert_eq!(chord.high(), 12);
    assert_eq!(chord.duration(), Duration::Quarter);
}

#[test]
fn whole_chords_have_no_stem() {
    for notes in [vec![0], vec![-20, 30], vec![5, 7, 9], vec![13, 13]] {
        let count = notes.len();
        let mut document = Document::new();
        Chord::new(notes, Duration::Whole).f(&mut document, 10);
        let text = document.to_string();
        assert_eq!(text.matches("<line").count(), 0);
        assert_eq!(text.matches("<ellipse").count(), count);
    }
    assert!(!Duration::Whole.has_stem());
    assert!(Duration::Half.has_stem());
    assert!(Duration::Quarter.has_stem());
}

#[test]
fn only_quarters_are_filled() {
    assert!(Duration::Quarter.is_filled());
    assert!(!Duration::Half.is_filled());
    assert!(!Duration::Whole.is_filled());
}

#[test]
fn heights_fall_as_positions_rise() {
    assert_eq!(y(13), 0);
    assert_eq!(y(5), 80);
    assert_eq!(y(0), 130);
    assert_eq!(y(-2), 150);
    assert_eq!(y(14), -10);
}

#[test]
fn a_chord_needs_a_position_that_fits() {
    assert!(!Chord::fits(&Vec::new()));
    assert!(Chord::fits(&vec![0]));
    assert!(Chord::fits(&vec![5, 7, 9]));
    assert!(Chord::fits(&vec![-922337203685477563, 922337203685477589]));
    assert!(!Chord::fits(&vec![0, 922337203685477590]));
    assert!(!Chord::fits(&vec![-922337203685477564, 0]));
    assert!(!Chord::fits(&vec![i64::MAX]));
    assert!(!Chord::fits(&vec![i64::MIN]));
    assert!(position_in_range(13));
    assert!(!position_in_range(i64::MIN));
}

#[test]
fn chords_at_the_edge_of_the_range_are_drawn() {
    let chord = Chord::new(vec![-922337203685477563, 922337203685477589], Duration::Half);
    assert!(chord.stem_on_left());
    let mut document = Document::new();
    chord.f(&mut document, i64::MAX - 20);
    let expected = Document::new()
        .add(outlined(i64::MAX - 10, 9223372036854775760))
        .add(outlined(i64::MAX - 10, -9223372036854775760))
        .add(stem(i64::MAX - 20, 9223372036854775800, -9223372036854775760));
    assert_eq!(document.to_string(), expected.to_string());

    let chord = Chord::new(vec![-922337203685477563, 922337203685477573], Duration::Quarter);
    assert!(!chord.stem_on_left());
    let mut document = Document::new();
    chord.f(&mut document, i64::MIN);
    let expected = Document::new()
        .add(filled(i64::MIN + 10, 9223372036854775760))
        .add(filled(i64::MIN + 10, -9223372036854775600))
        .add(stem(i64::MIN + 20, 9223372036854775760, -9223372036854775640));
    assert_eq!(document.to_string(), expected.to_string());
}

#[test]
fn a_measure_needs_chords_that_fit() {
    assert!(Measure::fits(&Vec::new()));
    assert!(Measure::fits(&vec![
        Chord::new(vec![5, 7, 9], Duration::Half),
        Chord::new(vec![-2, 0, 2], Duration::Quarter),
    ]));
}
