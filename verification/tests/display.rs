use csf::display::{
    banner_lines, bar_cells, cell_color, is_light_background_value, status_color, Color, Coloring, Line,
    RenderedTable, StyledCell, Table,
};

fn cells(v: &[&str]) -> Vec<String> {
    v.iter().map(|s| s.to_string()).collect()
}

#[test]
fn status_colors_by_group() {
    assert_eq!(status_color("available"), Color::Green);
    assert_eq!(status_color("Online"), Color::Green);
    assert_eq!(status_color("ACTIVE"), Color::Green);
    assert_eq!(status_color("healthy"), Color::Green);
    assert_eq!(status_color("Leader"), Color::Green);
    assert_eq!(status_color("creating"), Color::Yellow);
    assert_eq!(status_color("Migrating"), Color::Yellow);
    assert_eq!(status_color("degraded"), Color::Yellow);
    assert_eq!(status_color("follower"), Color::Yellow);
    assert_eq!(status_color("error"), Color::Red);
    assert_eq!(status_color("OFFLINE"), Color::Red);
    assert_eq!(status_color("deleting"), Color::Red);
    assert_eq!(status_color("failed"), Color::Red);
    assert_eq!(status_color("InUse"), Color::Cyan);
    assert_eq!(status_color("IN_USE"), Color::Cyan);
    assert_eq!(status_color("pending"), Color::White);
    assert_eq!(status_color(""), Color::White);
}

#[test]
fn status_color_ignores_case_on_concrete_words() {
    assert_eq!(status_color("OnLiNe"), status_color("online"));
    assert_eq!(status_color("DEGRADED"), status_color("degraded"));
}

#[test]
fn cell_colors_follow_the_rule() {
    assert_eq!(cell_color(Coloring::StatusColumn(4), 4, "online"), Color::Green);
    assert_eq!(cell_color(Coloring::StatusColumn(4), 3, "online"), Color::White);
    assert_eq!(cell_color(Coloring::ActionColumn(2), 2, "allow"), Color::Green);
    assert_eq!(cell_color(Coloring::ActionColumn(2), 2, "deny"), Color::Red);
    assert_eq!(cell_color(Coloring::ActionColumn(2), 1, "deny"), Color::White);
    assert_eq!(cell_color(Coloring::UsedColumn(4), 4, "yes"), Color::Green);
    assert_eq!(cell_color(Coloring::UsedColumn(4), 4, "no"), Color::Yellow);
    let nodes = Coloring::RoleAndStatus { role: 3, status: 4 };
    assert_eq!(cell_color(nodes, 3, "leader"), Color::Cyan);
    assert_eq!(cell_color(nodes, 3, "Leader"), Color::Cyan);
    assert_eq!(cell_color(nodes, 3, "LEADER"), Color::White);
    assert_eq!(cell_color(nodes, 4, "offline"), Color::Red);
    assert_eq!(cell_color(nodes, 0, "leader"), Color::White);
    assert_eq!(cell_color(Coloring::AllWhite, 0, "error"), Color::White);
}

#[test]
fn table_lays_out_columns() {
    let mut t = Table::new(vec!["ID", "NAME"]).with_color(Coloring::StatusColumn(1));
    t.add_row(cells(&["abc", "online"]));
    t.add_row(cells(&["a", "x"]));
    let r = t.render();
    assert_eq!(r.header, cells(&["ID ", "NAME  "]));
    assert_eq!(r.separator, "─".repeat(3 + 6 + 6));
    assert_eq!(
        r.rows,
        vec![
            vec![
                StyledCell { text: "abc".to_string(), color: Some(Color::White) },
                StyledCell { text: "online".to_string(), color: Some(Color::Green) },
            ],
            vec![
                StyledCell { text: "a  ".to_string(), color: Some(Color::White) },
                StyledCell { text: "x     ".to_string(), color: Some(Color::White) },
            ],
        ]
    );
}

#[test]
fn table_without_colors_and_with_extra_cells() {
    let mut t = Table::new(vec!["A"]);
    t.add_row(cells(&["é", "é"]));
    let r = t.render();
    // widths count bytes, padding counts characters
    assert_eq!(r.header, cells(&["A "]));
    assert_eq!(r.separator, "─".repeat(2 + 3));
    assert_eq!(
        r.rows,
        vec![vec![
            StyledCell { text: "é ".to_string(), color: None },
            StyledCell { text: "é ".to_string(), color: None },
        ]]
    );
}

#[test]
fn separator_is_capped_at_120() {
    let mut t = Table::new(vec!["X"]);
    t.add_row(cells(&[&"y".repeat(200)]));
    let r: RenderedTable = t.render();
    assert_eq!(r.separator.chars().count(), 120);
    assert_eq!(r.header[0].len(), 200);
}

#[test]
fn columns_align_on_ascii_tables() {
    let mut t = Table::new(vec!["ID", "STATUS", "N"]);
    t.add_row(cells(&["1", "ok", "12345"]));
    t.add_row(cells(&["22222", "degraded"]));
    let r = t.render();
    for col in 0..3 {
        let w = r.header[col].len();
        for row in &r.rows {
            if col < row.len() {
                assert_eq!(row[col].text.len(), w);
            }
        }
    }
}

#[test]
fn row_count_counts_rows() {
    let mut t = Table::new(vec!["A"]);
    assert_eq!(t.row_count(), 0);
    t.add_row(cells(&["x"]));
    t.add_row(cells(&["y"]));
    assert_eq!(t.row_count(), 2);
}

#[test]
fn light_background_detection() {
    assert!(!is_light_background_value("15;0"));
    assert!(is_light_background_value("0;15"));
    assert!(is_light_background_value("0;8"));
    assert!(!is_light_background_value("0;7"));
    assert!(is_light_background_value("0; 12 "));
    assert!(is_light_background_value("0;+9"));
    assert!(is_light_background_value("0;0008"));
    assert!(!is_light_background_value("0;256"));
    assert!(is_light_background_value("0;255"));
    assert!(!is_light_background_value("0;abc"));
    assert!(!is_light_background_value("0;-1"));
    assert!(!is_light_background_value("0;+"));
    assert!(!is_light_background_value("0;"));
    assert!(!is_light_background_value(""));
    assert!(is_light_background_value("12"));
    assert!(is_light_background_value("7;default;10"));
    assert!(is_light_background_value("0;\u{3000}9\t"));
}

#[test]
fn usage_bar_cells() {
    assert_eq!(bar_cells(3, 10), ("###".to_string(), ".......".to_string()));
    assert_eq!(bar_cells(0, 4), (String::new(), "....".to_string()));
    assert_eq!(bar_cells(12, 10), ("#".repeat(12), String::new()));
    let (h, d) = bar_cells(7, 7);
    assert_eq!(h.len() + d.len(), 7);
}

#[test]
fn banner_shades_by_background() {
    let light = banner_lines(true);
    let dark = banner_lines(false);
    assert_eq!(light.len(), 6);
    assert_eq!(light[0].1, (30, 30, 30));
    assert_eq!(light[5].1, (180, 180, 180));
    assert_eq!(dark[0].1, (255, 255, 255));
    assert_eq!(dark[5].1, (80, 80, 80));
    assert_eq!(dark[0].0, "   ██████╗███████╗███████╗██╗  ██╗");
    assert_eq!(light[3].0, dark[3].0);
}

#[test]
fn line_constructors() {
    assert_eq!(csf::display::kv("a", "b"), Line::Kv("a".to_string(), "b".to_string()));
    assert_eq!(
        csf::display::kv_colored("a", "b", Color::Red),
        Line::KvStyled("a".to_string(), "b".to_string(), Some(Color::Red))
    );
    assert_eq!(csf::display::section("T"), Line::Section("T".to_string()));
    assert_eq!(csf::display::error("E"), Line::Error("E".to_string()));
}
