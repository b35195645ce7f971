use bping::display::{
    display_failed_ping, display_job, failed_ping_pause, format_ping_header,
    get_progress_bar_text, header_for, print_border, print_footer, sleep_if_enabled, NodeInfo,
    PingOutcome, RenderStep, FRAME_WIDTH, STATISTICS_PAUSE_MS, TIMEOUT_PAUSE_MS,
};
use bping::options::{Arguments, Opts};
use bping::resolver::CountryFacts;

fn node(country_code: &str) -> NodeInfo {
    NodeInfo {
        country_code: country_code.to_string(),
        region_name: "Victoria".to_string(),
        isp: "Telstra".to_string(),
        operating_system: "linux".to_string(),
        coordinates: "(-37.81°N, 144.96°E)".to_string(),
    }
}

#[test]
fn each_result_is_drawn_or_reported() {
    let results = vec![
        PingOutcome { failed: true, measured: true, total_loss: false },
        PingOutcome { failed: false, measured: true, total_loss: true },
        PingOutcome { failed: false, measured: true, total_loss: false },
        PingOutcome { failed: false, measured: false, total_loss: false },
    ];
    assert_eq!(
        display_job(&results, true),
        vec![
            RenderStep::ReportError,
            RenderStep::ShowFailed,
            RenderStep::ShowSuccess,
            RenderStep::BlankLine
        ]
    );
    assert_eq!(
        display_job(&results, false),
        vec![
            RenderStep::ReportError,
            RenderStep::ReportMissingNode,
            RenderStep::ReportMissingNode,
            RenderStep::BlankLine
        ]
    );
    assert_eq!(display_job(&vec![], true), Vec::<RenderStep>::new());
}

#[test]
fn frame_lines() {
    assert_eq!(FRAME_WIDTH, 80);
    let top = print_border(80);
    assert_eq!(top.chars().count(), 80);
    assert_eq!(top, format!("┌{}┐", "─".repeat(78)));
    assert_eq!(print_footer(80), format!("└{}┘", "─".repeat(78)));
    assert_eq!(print_border(2), "┌┐");
    assert_eq!(print_footer(3), "└─┘");
}

#[test]
fn heading_with_a_known_country() {
    let lines = format_ping_header("bitping.com", "1.2.3.4", &node("AU"));
    assert_eq!(
        lines,
        vec![
            "│ PING bitping.com (1.2.3.4): 56 data bytes".to_string(),
            "│ ├── Origin: 🇦🇺 Victoria, Australia (-37.81°N, 144.96°E)".to_string(),
            "│ ├── ISP: Telstra".to_string(),
            "│ └── System: linux".to_string(),
            "│ ---".to_string(),
        ]
    );
}

#[test]
fn heading_with_an_unknown_country() {
    let lines = format_ping_header("bitping.com", "Unknown", &node("??"));
    assert_eq!(lines, vec!["│ PING bitping.com (Unknown): 56 data bytes".to_string()]);
}

#[test]
fn heading_for_a_given_country() {
    let facts = CountryFacts {
        alpha3: "XXX".to_string(),
        emoji: "#".to_string(),
        short_name: "Land".to_string(),
    };
    let lines = header_for("h", "i", &Some(facts), &node("zz"));
    assert_eq!(lines.len(), 5);
    assert_eq!(lines[1], "│ ├── Origin: # Victoria, Land (-37.81°N, 144.96°E)");
    assert_eq!(header_for("h", "i", &None, &node("AU")), vec!["│ PING h (i): 56 data bytes"]);
}

#[test]
fn failed_ping_without_a_measurement() {
    let lines = display_failed_ping("bitping.com", None, None);
    assert_eq!(
        lines,
        vec![
            "│ Request timeout for icmp_seq 0".to_string(),
            "│ Request timeout for icmp_seq 1".to_string(),
            "│ Request timeout for icmp_seq 2".to_string(),
            "│ Request timeout for icmp_seq 3".to_string(),
            "│ --- bitping.com ping statistics ---".to_string(),
            "│ 4 packets transmitted, 0 packets received, 100% packet loss".to_string(),
        ]
    );
}

#[test]
fn failed_ping_with_a_measurement() {
    let counted = "│ 2 packets transmitted, 0 packets received, 100.0% packet loss".to_string();
    let lines = display_failed_ping("h", Some(2), Some(counted.clone()));
    assert_eq!(
        lines,
        vec![
            "│ Request timeout for icmp_seq 0".to_string(),
            "│ Request timeout for icmp_seq 1".to_string(),
            "│ --- h ping statistics ---".to_string(),
            counted,
        ]
    );
    let lines = display_failed_ping("h", Some(12), None);
    assert_eq!(lines.len(), 14);
    assert_eq!(lines[11], "│ Request timeout for icmp_seq 11");
    assert_eq!(lines[13], "│ 12 packets transmitted, 0 packets received, 100% packet loss");
    assert_eq!(display_failed_ping("h", Some(0), None).len(), 2);
}

#[test]
fn progress_bar_text() {
    assert_eq!(
        get_progress_bar_text("bitping.com", &vec![]),
        "Collecting results for bitping.com [Worldwide]"
    );
    assert_eq!(
        get_progress_bar_text("bitping.com", &vec!["AU".to_string()]),
        "Collecting results for bitping.com [AU]"
    );
    assert_eq!(
        get_progress_bar_text(
            "bitping.com",
            &vec!["AU".to_string(), "CHN".to_string(), "Europe".to_string()]
        ),
        "Collecting results for bitping.com [AU,CHN,Europe]"
    );
    assert_eq!(
        get_progress_bar_text("h", &vec![String::new(), String::new()]),
        "Collecting results for h [,]"
    );
}

fn arguments(no_delay: bool) -> Arguments {
    Arguments {
        endpoint: "bitping.com".to_string(),
        regions: None,
        count: None,
        attempts: None,
        api_key: "key".to_string(),
        concurrency: None,
        residential: None,
        mobile: None,
        proxy: None,
        no_delay,
    }
}

#[test]
fn pauses_are_made_unless_switched_off() {
    let with = Opts::from_arguments(arguments(false)).unwrap();
    assert!(!with.no_delay);
    assert_eq!(sleep_if_enabled(&with, 250), Some(250));
    assert_eq!(sleep_if_enabled(&with, 0), Some(0));
    let without = Opts::from_arguments(arguments(true)).unwrap();
    assert!(without.no_delay);
    assert_eq!(sleep_if_enabled(&without, 250), None);
}

#[test]
fn pauses_of_a_failed_ping() {
    assert_eq!(TIMEOUT_PAUSE_MS, 500);
    assert_eq!(STATISTICS_PAUSE_MS, 250);
    let lines = display_failed_ping("h", None, None);
    let pauses: Vec<u64> = (0..lines.len()).map(|i| failed_ping_pause(None, i)).collect();
    assert_eq!(pauses, vec![500, 500, 500, 500, 500, 250]);
    let pauses: Vec<u64> = (0..4).map(|i| failed_ping_pause(Some(2), i)).collect();
    assert_eq!(pauses, vec![500, 500, 500, 250]);
    assert_eq!(failed_ping_pause(Some(0), 0), 500);
    assert_eq!(failed_ping_pause(Some(0), 1), 250);
}
