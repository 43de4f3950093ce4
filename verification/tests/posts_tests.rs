use terse::posts::{timeout_message, Post, PostSizeExceptionError, PublishingResult, DraftHeader};

#[test]
fn publishing_messages() {
    assert_eq!(PublishingResult::Published.message(), "The post was published successfully");
    let size = format!("{}", bytesize::ByteSize::b(32768));
    assert_eq!(
        PublishingResult::PostTooLarge { max_post_size: 32768, max_title_size: 120 }.message(),
        format!(
            "The server rejected your post because part of it was too large;\nMake sure:\n    - The content is within {}\n    - The title is within 120 characters\n",
            size
        )
    );
    assert_ne!(size, "32768");
    assert_eq!(
        PublishingResult::Timeout { time_remaining: 3660 }.message(),
        "You need to wait 01 hours and 01 minutes until you can publish another post\n"
    );
}

#[test]
fn size_refusal_message() {
    let e = PostSizeExceptionError { max_post_size: 100 };
    assert_eq!(
        e.message(),
        format!(
            "The server rejected your post because part of it was too large;\nMake sure:\n    - The content is within {}\n",
            bytesize::ByteSize::b(100)
        )
    );
}

#[test]
fn post_page_and_copies() {
    let p = Post::new(String::from("Title"), String::from("Body"));
    assert_eq!(p.page(), "Title\n\nBody\n");
    let q = p.duplicate();
    assert_eq!(q.title, "Title");
    assert_eq!(q.content, "Body");
    let h = DraftHeader { title: String::from("ABC DEF GHI") };
    assert_eq!(h.title, "ABC DEF GHI");
}

#[test]
fn waiting_messages() {
    assert_eq!(
        timeout_message(Some(String::from("00 hours and 05 minutes"))),
        "You need to wait 00 hours and 05 minutes until you can publish another post\n"
    );
    assert_eq!(
        timeout_message(None),
        "You need to wait and I don't know how long 'cause I couldn't parse the time until you can publish another post\n"
    );
    assert_eq!(
        PublishingResult::Timeout { time_remaining: 86400 + 2 * 3600 + 59 * 60 + 59 }.message(),
        "You need to wait 02 hours and 59 minutes until you can publish another post\n"
    );
}
