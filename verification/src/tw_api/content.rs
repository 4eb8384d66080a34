//! What is posted: a post, the reply that follows it, and the content of a
//! verse from which both are made.

use crate::quran_csv::Verse;
use vstd::prelude::*;
use vstd::string::StringExecFns;

verus! {

/// The body of the request that creates a post.
#[derive(Debug)]
pub struct Tweet {
    pub text: String,
}

/// The body of the request that creates a reply to a post.
#[derive(Debug)]
pub struct Reply {
    pub text: String,
    pub reply: ReplyId,
}

/// The post that a reply answers.
#[derive(Debug)]
pub struct ReplyId {
    pub in_reply_to_tweet_id: String,
}

impl ReplyId {
    /// The identifier of the post.
    pub fn to_string(&self) -> (id: String)
        ensures
            id@ == self.in_reply_to_tweet_id@,
    {
        self.in_reply_to_tweet_id.clone()
    }
}

impl Reply {
    /// The text of the reply.
    pub fn to_string(&self) -> (text: String)
        ensures
            text@ == self.text@,
    {
        self.text.clone()
    }
}

/// Content that can be published as a post followed by a reply to it.
///
/// The two predicates say what a kind of content promises of its post and
/// of its reply. Content that promises nothing leaves them as they are.
pub trait Tweetable {
    /// Whether `tweet` is the post of this content.
    open spec fn is_post(&self, tweet: Tweet) -> bool {
        true
    }

    /// Whether `reply` is the reply of this content to the post with the
    /// identifier `reply_id`.
    open spec fn is_reply(&self, reply_id: Seq<char>, reply: Reply) -> bool {
        true
    }

    /// The post.
    fn fmt_tweet(&self) -> (tweet: Tweet)
        ensures
            self.is_post(tweet),
    ;

    /// The reply to the post with the identifier `reply_id`.
    fn fmt_tweet_tr(&self, reply_id: String) -> (reply: Reply)
        ensures
            self.is_reply(reply_id@, reply),
    ;
}

/// The text of the reply for a verse: its translation, its locator and the
/// address of its commentary, one line each.
pub open spec fn reply_lines(verse_en: Seq<char>, verse_num: Seq<char>, tafsir: Seq<char>) -> Seq<
    char,
> {
    verse_en + "\n"@ + verse_num + "\nTafsir: "@ + tafsir
}

impl Verse {
    /// Where the verse stands: the number of its surah, a hyphen, and its
    /// number within the surah.
    pub open spec fn locator(&self) -> Seq<char> {
        self.surah_no@ + "-"@ + self.ayah_no_surah@
    }

    /// The text of the reply that is published for the verse.
    pub open spec fn spec_reply_text(&self) -> Seq<char> {
        reply_lines(self.ayah_en@, self.locator(), self.spec_tafsir_link())
    }
}

/// The content of one verse: the texts in both languages, borrowed from the
/// record, with its locator and the address of its commentary.
#[derive(Debug)]
pub struct QuranTweet<'a> {
    pub verse_en: &'a str,
    pub verse_ar: &'a str,
    pub verse_num: String,
    pub tafsir: String,
}

impl<'a> QuranTweet<'a> {
    /// Whether this is the content of the verse `v`.
    pub open spec fn is_content_of(&self, v: &Verse) -> bool {
        &&& self.verse_en@ == v.ayah_en@
        &&& self.verse_ar@ == v.ayah_ar@
        &&& self.verse_num@ == v.locator()
        &&& self.tafsir@ == v.spec_tafsir_link()
    }

    pub fn new(verse_en: &'a str, verse_ar: &'a str, verse_num: String, tafsir: String) -> (q: Self)
        ensures
            q.verse_en@ == verse_en@,
            q.verse_ar@ == verse_ar@,
            q.verse_num == verse_num,
            q.tafsir == tafsir,
    {
        Self { verse_en, verse_ar, verse_num, tafsir }
    }

    /// The content of a verse. The texts are taken as they are: nothing is
    /// cut or escaped.
    pub fn from(v: &'a Verse) -> (q: Self)
        ensures
            q.is_content_of(v),
    {
        let mut verse_num = v.surah_no.clone();
        verse_num.append("-");
        verse_num.append(v.ayah_no_surah.as_str());
        let link = v.tafsir_link();
        QuranTweet::new(v.ayah_en.as_str(), v.ayah_ar.as_str(), verse_num, link)
    }
}

impl Tweetable for QuranTweet<'_> {
    /// The post is the verse in its own language.
    open spec fn is_post(&self, tweet: Tweet) -> bool {
        tweet.text@ == self.verse_ar@
    }

    /// The reply holds the three lines of the verse and names the post.
    open spec fn is_reply(&self, reply_id: Seq<char>, reply: Reply) -> bool {
        &&& reply.text@ == reply_lines(self.verse_en@, self.verse_num@, self.tafsir@)
        &&& reply.reply.in_reply_to_tweet_id@ == reply_id
    }

    fn fmt_tweet(&self) -> (tweet: Tweet) {
        Tweet { text: String::from_str(self.verse_ar) }
    }

    fn fmt_tweet_tr(&self, reply_id: String) -> (reply: Reply) {
        let mut text = String::from_str(self.verse_en);
        text.append("\n");
        text.append(self.verse_num.as_str());
        text.append("\nTafsir: ");
        text.append(self.tafsir.as_str());
        Reply { text, reply: ReplyId { in_reply_to_tweet_id: reply_id } }
    }
}

/// The reply that the content of a verse makes is three lines and nothing
/// else: the translation; the locator, which is the surah number, a hyphen
/// and the ayah number; and the word `Tafsir: ` with the address of the
/// commentary on that surah and ayah.
pub proof fn reply_text_of_verse(v: Verse, q: QuranTweet, reply_id: Seq<char>, reply: Reply)
    requires
        q.is_content_of(&v),
        q.is_reply(reply_id, reply),
    ensures
        reply.text@ == v.ayah_en@ + "\n"@ + v.surah_no@ + "-"@ + v.ayah_no_surah@ + "\n"@
            + "Tafsir: https://quran.com/"@ + v.surah_no@ + ":"@ + v.ayah_no_surah@
            + "/tafsirs/en-tafisr-ibn-kathir"@,
        reply.text@ == v.spec_reply_text(),
{
    reveal_strlit("\n");
    reveal_strlit("\nTafsir: ");
    reveal_strlit("https://quran.com/");
    reveal_strlit("Tafsir: https://quran.com/");
    assert("\nTafsir: "@ + "https://quran.com/"@ =~= "\n"@ + "Tafsir: https://quran.com/"@);
    let head = v.ayah_en@ + "\n"@ + v.surah_no@ + "-"@ + v.ayah_no_surah@;
    let tail = v.surah_no@ + ":"@ + v.ayah_no_surah@ + "/tafsirs/en-tafisr-ibn-kathir"@;
    assert(v.spec_reply_text() =~= head + ("\nTafsir: "@ + "https://quran.com/"@) + tail);
    assert(head + ("\n"@ + "Tafsir: https://quran.com/"@) + tail =~= v.ayah_en@ + "\n"@
        + v.surah_no@ + "-"@ + v.ayah_no_surah@ + "\n"@ + "Tafsir: https://quran.com/"@
        + v.surah_no@ + ":"@ + v.ayah_no_surah@ + "/tafsirs/en-tafisr-ibn-kathir"@);
}

} // verus!
