use mactemp::figure::{labelled, Figure};
use mactemp::menu::{build_menu, build_title, MenuAction};
use mactemp::smc::{pick_sensor, Sensor, TemperatureData};
use mactemp::system_stats::SystemData;

fn fig(rounded: &str, one_decimal: &str) -> Figure {
    Figure { rounded: rounded.to_string(), one_decimal: one_decimal.to_string() }
}

fn temps(cpu: bool, gpu: bool) -> TemperatureData {
    TemperatureData {
        cpu_temp: if cpu { Some(fig("72", "72.4")) } else { None },
        gpu_temp: if gpu { Some(fig("68", "68.1")) } else { None },
    }
}

fn stats() -> SystemData {
    SystemData {
        cpu_usage: fig("31", "31.2"),
        ram_used_gb: fig("9", "9.2"),
        ram_total_gb: fig("16", "16.0"),
        ram_percentage: fig("57", "57.3"),
    }
}

#[test]
fn title_with_both_temperatures() {
    let mut s = stats();
    s.ram_percentage = fig("55", "55.0");
    assert_eq!(build_title(&temps(true, true), &s), "CPU 72°C | GPU 68°C | CPU 31% | RAM 55%");
}

#[test]
fn title_with_cpu_temperature_only() {
    let mut s = stats();
    s.ram_percentage = fig("55", "55.0");
    assert_eq!(build_title(&temps(true, false), &s), "CPU 72°C | CPU 31% | RAM 55%");
}

#[test]
fn title_without_temperatures() {
    let mut s = stats();
    s.ram_percentage = fig("55", "55.0");
    assert_eq!(build_title(&TemperatureData::default(), &s), "CPU 31% | RAM 55%");
}

#[test]
fn title_with_gpu_temperature_only() {
    assert_eq!(build_title(&temps(false, true), &stats()), "GPU 68°C | CPU 31% | RAM 57%");
}

#[test]
fn default_temperatures_are_unavailable() {
    let t = TemperatureData::default();
    assert!(t.cpu_temp.is_none());
    assert!(t.gpu_temp.is_none());
}

fn labels(temps: &TemperatureData, enabled: bool) -> Vec<(String, MenuAction)> {
    build_menu(temps, &stats(), enabled).into_iter().map(|e| (e.label, e.action)).collect()
}

#[test]
fn menu_with_all_readings() {
    let sep = ("─────────────────".to_string(), MenuAction::Disabled);
    let expected = vec![
        ("━━ System Stats ━━".to_string(), MenuAction::Disabled),
        ("  CPU Usage: 31.2%".to_string(), MenuAction::Noop),
        ("  CPU Temperature: 72.4°C".to_string(), MenuAction::Noop),
        ("  GPU Temperature: 68.1°C".to_string(), MenuAction::Noop),
        sep.clone(),
        ("  RAM Used:  9.2 GB".to_string(), MenuAction::Noop),
        ("  RAM Total: 16.0 GB".to_string(), MenuAction::Noop),
        ("  RAM Usage: 57.3%".to_string(), MenuAction::Noop),
        sep.clone(),
        ("↻ Refresh".to_string(), MenuAction::Refresh),
        ("  Auto Launch at Login: ✓".to_string(), MenuAction::ToggleAutostart),
        sep,
        ("✕ Quit".to_string(), MenuAction::Quit),
    ];
    assert_eq!(labels(&temps(true, true), true), expected);
}

#[test]
fn menu_without_temperatures() {
    let got = labels(&TemperatureData::default(), false);
    assert_eq!(got.len(), 12);
    assert_eq!(got[2], ("  CPU Temperature: N/A".to_string(), MenuAction::Noop));
    assert_eq!(got[3], ("─────────────────".to_string(), MenuAction::Disabled));
    assert_eq!(got[9], ("  Auto Launch at Login: ✗".to_string(), MenuAction::ToggleAutostart));
    assert!(got.iter().all(|(l, _)| !l.contains("GPU")));
}

#[test]
fn menu_hides_gpu_when_unavailable() {
    let got = labels(&temps(true, false), true);
    assert_eq!(got.len(), 12);
    assert_eq!(got[2], ("  CPU Temperature: 72.4°C".to_string(), MenuAction::Noop));
    assert!(got.iter().all(|(l, _)| !l.contains("GPU")));
}

#[test]
fn labelled_concatenates() {
    assert_eq!(labelled("a", "bc", "d"), "abcd");
}

#[test]
fn sensor_prefers_die() {
    assert_eq!(pick_sensor(true, true), Some(Sensor::Die));
    assert_eq!(pick_sensor(true, false), Some(Sensor::Die));
}

#[test]
fn sensor_falls_back_to_proximity() {
    assert_eq!(pick_sensor(false, true), Some(Sensor::Proximity));
}

#[test]
fn sensor_unavailable_when_neither_plausible() {
    assert_eq!(pick_sensor(false, false), None);
}
