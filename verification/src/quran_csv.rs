//! The records of the verse dataset.

use vstd::prelude::*;
use vstd::string::StringExecFns;

verus! {

/// A reader of the tabular dataset, by the type of the rows it yields.
pub struct CsvReader<T> {
    pub t: T,
}

/// One row of the dataset. Every column is kept as the text it was read as.
#[derive(Debug)]
pub struct Verse {
    pub surah_no: String,
    pub surah_name_en: String,
    pub surah_name_ar: String,
    pub surah_name_roman: String,
    pub ayah_no_surah: String,
    pub ayah_no_quran: String,
    pub ayah_ar: String,
    pub ayah_en: String,
    pub ruko_no: String,
    pub juz_no: String,
    pub manzil_no: String,
    pub hizb_quarter: String,
    pub total_ayah_surah: String,
    pub total_ayah_quran: String,
    pub place_of_revelation: String,
    pub sajah_ayah: String,
    pub sajdah_no: String,
    pub no_of_word_ayah: String,
    pub list_of_words: String,
}

impl Verse {
    /// The address of the commentary on this verse: the surah and ayah
    /// numbers set into the fixed address of the commentary site.
    pub open spec fn spec_tafsir_link(&self) -> Seq<char> {
        "https://quran.com/"@ + self.surah_no@ + ":"@ + self.ayah_no_surah@
            + "/tafsirs/en-tafisr-ibn-kathir"@
    }

    pub fn tafsir_link(&self) -> (link: String)
        ensures
            link@ == self.spec_tafsir_link(),
    {
        let mut link = String::from_str("https://quran.com/");
        link.append(self.surah_no.as_str());
        link.append(":");
        link.append(self.ayah_no_surah.as_str());
        link.append("/tafsirs/en-tafisr-ibn-kathir");
        link
    }
}

} // verus!
