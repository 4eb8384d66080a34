use tw_api::quran_csv::Verse;
use tw_api::tw_api::{QuranTweet, Reply, ReplyId, Tweet, Tweetable};

fn content_verse(surah_no: &str, ayah_no_surah: &str, ayah_en: &str, ayah_ar: &str) -> Verse {
    Verse {
        surah_no: surah_no.to_string(),
        surah_name_en: "The Opening".to_string(),
        surah_name_ar: "الفاتحة".to_string(),
        surah_name_roman: "Al-Fatihah".to_string(),
        ayah_no_surah: ayah_no_surah.to_string(),
        ayah_no_quran: "1".to_string(),
        ayah_ar: ayah_ar.to_string(),
        ayah_en: ayah_en.to_string(),
        ruko_no: "1".to_string(),
        juz_no: "1".to_string(),
        manzil_no: "1".to_string(),
        hizb_quarter: "1".to_string(),
        total_ayah_surah: "7".to_string(),
        total_ayah_quran: "6236".to_string(),
        place_of_revelation: "Meccan".to_string(),
        sajah_ayah: "FALSE".to_string(),
        sajdah_no: "NA".to_string(),
        no_of_word_ayah: "4".to_string(),
        list_of_words: "".to_string(),
    }
}

#[test]
fn tafsir_link_sets_surah_and_ayah_into_the_address() {
    let v = content_verse("2", "255", "Allah - there is no deity except Him", "ٱللَّهُ لَآ إِلَٰهَ إِلَّا هُوَ");
    assert_eq!(v.tafsir_link(), "https://quran.com/2:255/tafsirs/en-tafisr-ibn-kathir");
}

#[test]
fn tafsir_link_takes_the_numbers_as_text() {
    let v = content_verse("", "x y", "", "");
    assert_eq!(v.tafsir_link(), "https://quran.com/:x y/tafsirs/en-tafisr-ibn-kathir");
}

#[test]
fn quran_tweet_new_keeps_its_arguments() {
    let q = QuranTweet::new("english", "عربي", "3-4".to_string(), "link".to_string());
    assert_eq!(q.verse_en, "english");
    assert_eq!(q.verse_ar, "عربي");
    assert_eq!(q.verse_num, "3-4");
    assert_eq!(q.tafsir, "link");
}

#[test]
fn quran_tweet_from_reads_the_verse() {
    let v = content_verse("114", "6", "From among the jinn and mankind", "مِنَ ٱلْجِنَّةِ وَٱلنَّاسِ");
    let q = QuranTweet::from(&v);
    assert_eq!(q.verse_en, "From among the jinn and mankind");
    assert_eq!(q.verse_ar, "مِنَ ٱلْجِنَّةِ وَٱلنَّاسِ");
    assert_eq!(q.verse_num, "114-6");
    assert_eq!(q.tafsir, "https://quran.com/114:6/tafsirs/en-tafisr-ibn-kathir");
}

#[test]
fn post_is_the_source_text_verbatim() {
    let v = content_verse("1", "1", "In the name of Allah", "  بسم \"الله\"\n");
    let tweet = QuranTweet::from(&v).fmt_tweet();
    assert_eq!(tweet.text, "  بسم \"الله\"\n");
}

#[test]
fn reply_has_translation_locator_and_link_on_three_lines() {
    let v = content_verse("36", "58", "Peace, a word from a Merciful Lord", "سَلَٰمٌ");
    let reply = QuranTweet::from(&v).fmt_tweet_tr("1700000000000000001".to_string());
    let lines: Vec<&str> = reply.text.split('\n').collect();
    assert_eq!(
        lines,
        vec![
            "Peace, a word from a Merciful Lord",
            "36-58",
            "Tafsir: https://quran.com/36:58/tafsirs/en-tafisr-ibn-kathir",
        ]
    );
    assert_eq!(reply.reply.in_reply_to_tweet_id, "1700000000000000001");
}

#[test]
fn reply_is_not_cut_or_escaped() {
    let long = "a".repeat(500);
    let v = content_verse("2", "282", &long, "x");
    let reply = QuranTweet::from(&v).fmt_tweet_tr(String::new());
    assert_eq!(
        reply.text,
        format!("{}\n2-282\nTafsir: https://quran.com/2:282/tafsirs/en-tafisr-ibn-kathir", long)
    );
    assert_eq!(reply.reply.in_reply_to_tweet_id, "");
}

#[test]
fn scenario_first_verse_post_and_reply_bodies() {
    let v = content_verse("1", "1", "In the name of Allah", "بسم الله");
    let content = QuranTweet::from(&v);

    let tweet = content.fmt_tweet();
    assert_eq!(tweet.text, "بسم الله");
    let mut post_body = serde_json::Map::new();
    post_body.insert("text".to_string(), serde_json::Value::String(tweet.text.clone()));
    let expected_post: serde_json::Value =
        serde_json::from_str("{\"text\":\"بسم الله\"}").unwrap();
    assert_eq!(serde_json::Value::Object(post_body), expected_post);

    let reply = content.fmt_tweet_tr("<postId>".to_string());
    assert_eq!(
        reply.text,
        "In the name of Allah\n1-1\nTafsir: https://quran.com/1:1/tafsirs/en-tafisr-ibn-kathir"
    );
    let mut reply_to = serde_json::Map::new();
    reply_to.insert(
        "in_reply_to_tweet_id".to_string(),
        serde_json::Value::String(reply.reply.in_reply_to_tweet_id.clone()),
    );
    let mut reply_body = serde_json::Map::new();
    reply_body.insert("text".to_string(), serde_json::Value::String(reply.text.clone()));
    reply_body.insert("reply".to_string(), serde_json::Value::Object(reply_to));
    let expected_reply: serde_json::Value = serde_json::from_str(
        "{\"text\":\"In the name of Allah\\n1-1\\nTafsir: https://quran.com/1:1/tafsirs/en-tafisr-ibn-kathir\",\"reply\":{\"in_reply_to_tweet_id\":\"<postId>\"}}",
    )
    .unwrap();
    assert_eq!(serde_json::Value::Object(reply_body), expected_reply);
}

#[test]
fn reply_and_reply_id_print_their_text() {
    let reply = Reply {
        text: "the text".to_string(),
        reply: ReplyId { in_reply_to_tweet_id: "99".to_string() },
    };
    assert_eq!(reply.to_string(), "the text");
    assert_eq!(reply.reply.to_string(), "99");
}

struct Greeting;

impl Tweetable for Greeting {
    fn fmt_tweet(&self) -> Tweet {
        Tweet { text: "hello".to_string() }
    }

    fn fmt_tweet_tr(&self, reply_id: String) -> Reply {
        Reply { text: "world".to_string(), reply: ReplyId { in_reply_to_tweet_id: reply_id } }
    }
}

#[test]
fn other_content_can_be_tweetable() {
    let tweet = Greeting.fmt_tweet();
    assert_eq!(tweet.text, "hello");
    let reply = Greeting.fmt_tweet_tr("7".to_string());
    assert_eq!(reply.text, "world");
    assert_eq!(reply.reply.in_reply_to_tweet_id, "7");
}
