use dictee_store::facade::{
    read_user_db_step, write_user_db_step, words_analyses, words_forms, dictations_analyze,
};

// The read boundary hands the host the document text; a fresh store reads
// as the empty current-generation document.
#[test]
fn read_boundary_returns_text() {
    match read_user_db_step(None) {
        Ok(l) => {
            assert_eq!(l.doc, "{\"dictations\":[],\"baseWords\":[]}");
            assert!(l.persist);
        }
        Err(_) => panic!("a fresh read must succeed"),
    }
    match read_user_db_step(Some("{\"dictations\":[9],\"baseWords\":[]}".to_string())) {
        Ok(l) => {
            assert_eq!(l.doc, "{\"dictations\":[9],\"baseWords\":[]}");
            assert!(!l.persist);
        }
        Err(_) => panic!("a read of a valid file must succeed"),
    }
}

// The read boundary reports a corrupt file as a plain description.
#[test]
fn read_boundary_reports_corruption() {
    let r = read_user_db_step(Some("not json".to_string()));
    match r {
        Ok(_) => panic!("a corrupt file must not read"),
        Err(msg) => assert!(!msg.is_empty()),
    }
}

// The write boundary accepts exactly valid JSON text.
#[test]
fn write_boundary_validates_syntax() {
    assert!(write_user_db_step("{\"dictations\":[],\"baseWords\":[]}").is_ok());
    assert!(write_user_db_step("[]").is_ok());
    match write_user_db_step("{not json") {
        Ok(_) => panic!("an invalid payload must be rejected"),
        Err(msg) => assert!(!msg.is_empty()),
    }
}

// The call-through operations acknowledge with the fixed success value.
#[test]
fn call_through_operations_acknowledge() {
    let a = words_analyses("chanter", Some(true));
    assert_eq!(a.status, 200);
    assert_eq!(a.message, "OK");
    let b = words_forms("chanter");
    assert_eq!(b.status, 200);
    assert_eq!(b.message, "OK");
    let c = dictations_analyze("La mer est calme.", None);
    assert_eq!(c.status, 200);
    assert_eq!(c.message, "OK");
}
