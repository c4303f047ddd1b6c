use xdsign::pictures::{
    dir_unreadable_message, is_picture_name, newest, no_picture_message, picture_candidates,
};

#[test]
fn picture_names() {
    assert!(is_picture_name("a.png"));
    assert!(is_picture_name("x.y.jpg"));
    assert!(!is_picture_name("png"));
    assert!(!is_picture_name("jpg"));
    assert!(is_picture_name(".png"));
    assert!(!is_picture_name("a.PNG"));
    assert!(!is_picture_name("a.jpeg"));
    assert!(!is_picture_name("a.png.txt"));
    assert!(!is_picture_name(""));
}

#[test]
fn candidates_are_picture_files() {
    let entries = vec![
        ("a.png".to_string(), true),
        ("dir.jpg".to_string(), false),
        ("b.txt".to_string(), true),
        ("c.jpg".to_string(), true),
    ];
    assert_eq!(picture_candidates(&entries), vec![0, 3]);
}

#[test]
fn newest_prefers_first_of_equals() {
    assert_eq!(newest(&vec![]), None);
    assert_eq!(newest(&vec![5, 9, 9, -3]), Some(1));
    assert_eq!(newest(&vec![-7]), Some(0));
}

#[test]
fn directory_messages() {
    assert_eq!(dir_unreadable_message(), "遍历文件夹失败！");
    assert_eq!(no_picture_message(), "文件夹下没有图片！（只支持 `*.png` 文件或 `*.jpg` 文件。）");
}
