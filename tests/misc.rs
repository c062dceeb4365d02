use donkeytype::args::{HistorySubcommandArgs, SubCommand};
use donkeytype::help_window::{Area, HelpLayout, HelpWindow, HELP_WIDTH};
use donkeytype::history::{bars_to_show, chart_start, fmt_num};

#[test]
fn fmt_num_pads_to_two_digits() {
    assert_eq!(fmt_num(0), "00");
    assert_eq!(fmt_num(5), "05");
    assert_eq!(fmt_num(12), "12");
    assert_eq!(fmt_num(2024), "2024");
}

#[test]
fn chart_shows_latest_results_that_fit() {
    assert_eq!(bars_to_show(11), 2);
    assert_eq!(bars_to_show(65535), 10922);
    assert_eq!(chart_start(5, 11), 3);
    assert_eq!(chart_start(1, 11), 0);
    assert_eq!(chart_start(2, 11), 0);
}

#[test]
fn help_window_layouts() {
    let help = HelpWindow::new();
    let lines = help.lines();
    assert_eq!(lines.len(), 14);
    assert_eq!(lines.iter().map(|l| l.len()).max(), Some(HELP_WIDTH as usize));
    let area = |width, height| Area { x: 0, y: 0, width, height };
    assert_eq!(help.layout(area(100, 2)), HelpLayout::Cleared);
    assert_eq!(help.layout(area(100, 14)), HelpLayout::TooShort);
    assert_eq!(help.layout(area(66, 40)), HelpLayout::TooNarrow);
    assert_eq!(help.layout(area(0, 40)), HelpLayout::TooNarrow);
    assert_eq!(
        help.layout(area(100, 40)),
        HelpLayout::Window(Area { x: 17, y: 3, width: 66, height: 15 })
    );
    assert_eq!(
        help.layout(area(100, 16)),
        HelpLayout::Window(Area { x: 17, y: 0, width: 66, height: 15 })
    );
}

#[test]
fn history_subcommand_has_no_arguments() {
    let command = SubCommand::History(HistorySubcommandArgs {});
    assert_eq!(command, SubCommand::History(HistorySubcommandArgs {}));
}
