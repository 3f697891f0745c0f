use vrchat_photo_manager::vrchat::{
    friend_marks, login, refresh_player, sync_own_gallery, user_url, File, FileBlob,
    FileVersion, PagedFetch, StoredFriend, User,
};

#[test]
fn login_keeps_the_cookies() {
    let headers = vec![
        Some("auth=abc; Path=/; HttpOnly".to_string()),
        None,
        Some("twoFactorAuth=xyz".to_string()),
    ];
    assert_eq!(login(false, &headers), Ok("auth=abc; twoFactorAuth=xyz".to_string()));
    assert_eq!(login(false, &vec![Some(";x".into())]), Ok(String::new()));
    assert_eq!(login(false, &vec![None]), Err("VRChat 未返回登录会话。".to_string()));
    assert_eq!(
        login(true, &headers),
        Err("账号、密码或 2FA 验证失败。请在设置中完成 2FA。".to_string())
    );
}

#[test]
fn user_endpoint() {
    assert_eq!(user_url("usr_1"), "https://api.vrchat.cloud/api/1/users/usr_1");
}

#[test]
fn icon_wins_over_profile_picture() {
    let mut u = User {
        id: "usr_1".into(),
        display_name: "A".into(),
        user_icon: Some("icon".into()),
        profile_pic_override: Some("pic".into()),
        current_avatar_thumbnail_image_url: Some("avatar".into()),
    };
    let p = refresh_player(&u);
    assert_eq!(p.profile_pic_url, Some("icon".to_string()));
    assert_eq!(p.avatar_thumbnail_url, Some("avatar".to_string()));
    u.user_icon = None;
    assert_eq!(refresh_player(&u).profile_pic_url, Some("pic".to_string()));
}

fn file(id: &str, mime: Option<&str>, urls: &[&str]) -> File {
    File {
        id: id.into(),
        name: format!("{id}.png"),
        mime_type: mime.map(str::to_string),
        versions: urls
            .iter()
            .enumerate()
            .map(|(i, u)| FileVersion { version: i as i64, file: FileBlob { url: u.to_string() } })
            .collect(),
    }
}

#[test]
fn gallery_keeps_images_with_versions() {
    let files = vec![
        file("a", Some("image/png"), &["u1", "u2"]),
        file("b", Some("video/mp4"), &["v"]),
        file("c", None, &["w"]),
        file("d", Some("image/jpeg"), &[]),
        file("e", Some("image/webp"), &["x"]),
    ];
    let rows = sync_own_gallery("usr_me", &files);
    assert_eq!(rows.len(), 2);
    assert_eq!(rows[0].remote_url, "u2");
    assert_eq!(rows[0].user_id, "usr_me");
    assert_eq!(rows[1].vrchat_file_id, "e");
    assert_eq!(rows[1].file_name, "e.png");
}

#[test]
fn friend_marks_follow_the_friend_list() {
    let stored = vec![
        StoredFriend { user_id: "a".into(), is_vrchat_friend: true },
        StoredFriend { user_id: "b".into(), is_vrchat_friend: true },
        StoredFriend { user_id: "c".into(), is_vrchat_friend: false },
    ];
    let friends = vec!["a".to_string(), "c".to_string(), "d".to_string()];
    let marks = friend_marks(&stored, &friends);
    assert_eq!(marks.newly_marked, vec!["c".to_string(), "d".to_string()]);
    assert_eq!(marks.unmarked, vec!["b".to_string()]);
    let none = friend_marks(&stored, &Vec::new());
    assert!(none.newly_marked.is_empty());
    assert_eq!(none.unmarked, vec!["a".to_string(), "b".to_string()]);
}

#[test]
fn gallery_then_prints_are_fetched_page_by_page() {
    let mut pages = PagedFetch::gallery();
    let mut asked = Vec::new();
    for count in [100, 100, 7, 100, 0] {
        asked.push(pages.next_url().unwrap());
        pages.page_received(count);
    }
    assert_eq!(pages.next_url(), None);
    assert_eq!(
        asked,
        vec![
            "https://api.vrchat.cloud/api/1/files?tag=gallery&n=100&offset=0".to_string(),
            "https://api.vrchat.cloud/api/1/files?tag=gallery&n=100&offset=100".to_string(),
            "https://api.vrchat.cloud/api/1/files?tag=gallery&n=100&offset=200".to_string(),
            "https://api.vrchat.cloud/api/1/files?tag=print&n=100&offset=0".to_string(),
            "https://api.vrchat.cloud/api/1/files?tag=print&n=100&offset=100".to_string(),
        ]
    );
    pages.page_received(100);
    assert_eq!(pages.next_url(), None);
}

#[test]
fn friends_are_fetched_online_then_offline_page_by_page() {
    let mut pages = PagedFetch::friends();
    assert_eq!(
        pages.next_url(),
        Some("https://api.vrchat.cloud/api/1/auth/user/friends?offline=false&n=100&offset=0".to_string())
    );
    pages.page_received(150);
    assert_eq!(
        pages.next_url(),
        Some("https://api.vrchat.cloud/api/1/auth/user/friends?offline=false&n=100&offset=150".to_string())
    );
    pages.page_received(99);
    assert_eq!(
        pages.next_url(),
        Some("https://api.vrchat.cloud/api/1/auth/user/friends?offline=true&n=100&offset=0".to_string())
    );
    pages.page_received(0);
    assert_eq!(pages.next_url(), None);
}
