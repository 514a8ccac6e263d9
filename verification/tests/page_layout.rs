use matters::layout::render_rows;
use matters::Operation;
use matters::Problem;
use rand::rngs::SmallRng;
use rand::SeedableRng;

fn sample_problems(n: usize) -> Vec<Problem> {
    let mut problems = Vec::new();
    for i in 0..n {
        let x = (i % 13) as u32;
        let y = 1 + (i % 7) as u32;
        problems.push(Problem::new(Operation::Addition, x + 1, y));
    }
    problems
}

#[test]
fn plain_rows_render_exact_statements() {
    let problems = vec![
        Problem::new(Operation::Multiplication, 5, 7),
        Problem::new(Operation::Addition, 22, 20),
    ];
    let mut rng = SmallRng::seed_from_u64(1);
    let rows = render_rows(&problems, false, &mut rng);
    assert_eq!(rows.len(), 2);
    assert_eq!(rows[0].text, " 5 *  7 = _______");
    assert_eq!(rows[1].text, "22 + 20 = _______");
    assert_eq!(rows[0].label, " 1.");
    assert_eq!(rows[1].label, " 2.");
}

#[test]
fn rows_are_placed_on_the_two_column_grid() {
    let problems = sample_problems(60);
    let mut rng = SmallRng::seed_from_u64(2);
    let rows = render_rows(&problems, false, &mut rng);
    assert_eq!(rows.len(), 60);

    // left column: indented 20mm, stepping down 8.8mm per row from 290mm
    assert_eq!(rows[0].label_x, 200);
    assert_eq!(rows[0].text_x, 270);
    assert_eq!(rows[0].y, 2812);
    assert_eq!(rows[1].y, 2724);
    assert_eq!(rows[14].y, 1580);
    // an extra line of gap after the fifteenth row of the column
    assert_eq!(rows[15].y, 1382);
    assert_eq!(rows[29].y, 150);

    // right column: 100mm further right, restarting at the top
    assert_eq!(rows[30].label_x, 1200);
    assert_eq!(rows[30].text_x, 1270);
    assert_eq!(rows[30].y, 2812);
    assert_eq!(rows[44].y, 1580);
    assert_eq!(rows[45].y, 1382);
    assert_eq!(rows[59].y, 150);

    assert_eq!(rows[9].label, "10.");
    assert_eq!(rows[59].label, "60.");
}

#[test]
fn short_pages_balance_their_columns() {
    let problems = sample_problems(10);
    let mut rng = SmallRng::seed_from_u64(6);
    let rows = render_rows(&problems, false, &mut rng);
    assert_eq!(rows.len(), 10);
    // the column break sits at half the row count
    for row in &rows[..5] {
        assert_eq!(row.label_x, 200);
    }
    for row in &rows[5..] {
        assert_eq!(row.label_x, 1200);
    }
    assert_eq!(rows[5].y, 2812);
    assert_eq!(rows[9].y, 2460);
}

#[test]
fn sectioning_gap_follows_the_sequence_index() {
    let problems = sample_problems(20);
    let mut rng = SmallRng::seed_from_u64(7);
    let rows = render_rows(&problems, false, &mut rng);
    assert_eq!(rows.len(), 20);
    // rows 10..19 make the right column; the gap falls after the sixteenth
    // problem of the sequence
    assert_eq!(rows[14].label_x, 1200);
    assert_eq!(rows[14].y, 2460);
    assert_eq!(rows[15].y, 2262);
    assert_eq!(rows[19].y, 1910);
}

#[test]
fn layout_truncates_beyond_sixty_problems() {
    let problems = sample_problems(75);
    let mut rng = SmallRng::seed_from_u64(3);
    let rows = render_rows(&problems, false, &mut rng);
    assert_eq!(rows.len(), 60);
}

#[test]
fn holes_hide_exactly_one_operand() {
    let problems = sample_problems(60);
    let mut rng = SmallRng::seed_from_u64(4);
    let rows = render_rows(&problems, true, &mut rng);
    assert_eq!(rows.len(), 60);

    let mut first_hidden: usize = 0;
    let mut second_hidden: usize = 0;
    for (i, row) in rows.iter().enumerate() {
        let p = &problems[i];
        let hole_x = format!("{:>2} = _______ {} {:>2}", p.result(), p.operation.symbol(), p.y);
        let hole_y = format!("{:>2} = {:>2} {} _______", p.result(), p.x, p.operation.symbol());
        assert!(
            row.text == hole_x || row.text == hole_y,
            "unexpected row text: {}",
            row.text
        );
        if row.text == hole_x {
            first_hidden += 1;
        } else {
            second_hidden += 1;
        }
    }
    // the per-row coin flip must produce both forms over sixty rows
    assert!(first_hidden > 0);
    assert!(second_hidden > 0);
}

#[test]
fn hole_statements_show_negative_results() {
    let problems = vec![Problem::new(Operation::Subtraction, 3, 5)];
    let mut rng = SmallRng::seed_from_u64(5);
    let rows = render_rows(&problems, true, &mut rng);
    assert_eq!(rows.len(), 1);
    assert!(rows[0].text == "-2 = _______ -  5" || rows[0].text == "-2 =  3 - _______");
}
