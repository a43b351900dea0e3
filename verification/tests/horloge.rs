use chrono::Datelike;
use erp_example::horloge::{instant_present, jour_courant, jour_de, JOUR_EPOQUE_UNIX};

#[test]
fn le_jour_d_un_instant_unix_est_celui_de_chrono() {
    assert_eq!(jour_de(0), Some(JOUR_EPOQUE_UNIX as i32));
    assert_eq!(jour_de(0), Some(chrono::NaiveDate::from_ymd_opt(1970, 1, 1).unwrap().num_days_from_ce()));
    // 2026-09-01T12:00:00Z
    let secondes = 1_788_264_000u64;
    assert_eq!(jour_de(secondes), Some(chrono::NaiveDate::from_ymd_opt(2026, 9, 1).unwrap().num_days_from_ce()));
    assert_eq!(jour_de(u64::MAX), None);
}

#[test]
fn l_instant_present_a_la_forme_annoncee() {
    let instant = instant_present().unwrap();
    assert_eq!(instant.compact.len(), 15);
    assert!(instant.compact.chars().all(|c| c.is_ascii_digit() || c == 'T'));
    assert_eq!(&instant.compact[8..9], "T");
    assert!(instant.compact_micro.starts_with(&instant.compact));
    assert_eq!(instant.compact_micro.len(), 21);
    assert_eq!(&instant.rfc3339[4..5], "-");
    assert!(instant.rfc3339.ends_with("+00:00"));
    // Une seule lecture : la date et l'heure de `rfc3339` sont celles de `compact`.
    let lue: String = instant.rfc3339[..19].chars().filter(|c| c.is_ascii_digit() || *c == 'T').collect();
    assert_eq!(lue, instant.compact);
    assert!(jour_courant().unwrap() >= JOUR_EPOQUE_UNIX as i32);
}
