use fabric_nb::client::{FabricItem, JobInstance};
use fabric_nb::display::{
    item_description, job_row, job_status_tone, livy_session_row, name_column_width,
    notebook_web_url, LivySession, Style, Tone,
};

fn item(name: &str) -> FabricItem {
    FabricItem { id: "i".into(), display_name: name.into(), item_type: "Notebook".into(), description: None }
}

#[test]
fn styles_render_empty_when_quiet() {
    let cyan = Style("\x1b[36m");
    assert_eq!(cyan.render(false), "\x1b[36m");
    assert_eq!(cyan.render(true), "");
}

#[test]
fn status_tones() {
    assert!(matches!(job_status_tone("Completed"), Tone::Good));
    assert!(matches!(job_status_tone("FAILED"), Tone::Bad));
    assert!(matches!(job_status_tone("InProgress"), Tone::Neutral));
}

#[test]
fn name_column_counts_bytes_with_minimum() {
    assert_eq!(name_column_width(&vec![]), 4);
    assert_eq!(name_column_width(&vec![item("ab")]), 4);
    assert_eq!(name_column_width(&vec![item("ab"), item("abcdef")]), 6);
    assert_eq!(name_column_width(&vec![item("ééé")]), 6);
}

#[test]
fn rows_and_urls() {
    let job = JobInstance { id: Some("j".into()), status: None, start_time_utc: Some("s".into()), end_time_utc: None, failure_reason: None };
    let r = job_row(&job);
    assert_eq!((r.0.as_str(), r.1.as_str(), r.2.as_str(), r.3.as_str()), ("j", "-", "s", "-"));
    assert_eq!(item_description(&item("x")), "");
    let sess = LivySession { id: Some(-7), state: Some("idle".into()), app_id: None, name: None };
    let r = livy_session_row(&sess);
    assert_eq!((r.0.as_str(), r.1.as_str(), r.2.as_str()), ("-7", "idle", "-"));
    assert_eq!(
        notebook_web_url("w", "n"),
        "https://app.fabric.microsoft.com/groups/w/synapsenotebooks/n/?experience=fabric-developer"
    );
}
