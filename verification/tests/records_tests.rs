use xdsign::records::{delete_pos_sql, Address, Course};

#[test]
fn delete_statement() {
    assert_eq!(delete_pos_sql(42), "DELETE FROM pos WHERE posid=42;");
    assert_eq!(delete_pos_sql(-1), "DELETE FROM pos WHERE posid=-1;");
}

#[test]
fn records_keep_fields() {
    let c = Course::new(1, 2, "张老师", "http://img", "数学");
    assert_eq!(c.get_id(), 1);
    assert_eq!(c.get_class_id(), 2);
    assert_eq!(c.get_teacher_name(), "张老师");
    assert_eq!(c.get_image_url(), "http://img");
    assert_eq!(c.get_name(), "数学");
    let a = Address::new("图书馆", "108.1", "34.2", "400");
    assert_eq!(a.get_addr(), "图书馆");
    assert_eq!(a.get_lon(), "108.1");
    assert_eq!(a.get_lat(), "34.2");
    assert_eq!(a.get_alt(), "400");
}
