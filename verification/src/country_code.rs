//! The mapping from country names, as the catalogs spell them — Hebrew
//! names, common misspellings and a few Latin ones — to two-letter country
//! codes.

use vstd::prelude::*;

use crate::strutil::str_eq;

verus! {

/// The code a catalog's country text names, or nothing for an unknown text.
pub open spec fn spec_country_code(s: Seq<char>) -> Option<Seq<char>> {
    if s == "אפגניסטן"@ {
        Some("AF"@)
    } else if s == "איי אלנד"@ {
        Some("AX"@)
    } else if s == "אלבניה"@ {
        Some("AL"@)
    } else if s == "אלג'יריה"@ {
        Some("DZ"@)
    } else if s == "סמואה האמריקנית"@ {
        Some("AS"@)
    } else if s == "אנדורה"@ {
        Some("AD"@)
    } else if s == "אנגולה"@ {
        Some("AO"@)
    } else if s == "אנגווילה"@ {
        Some("AI"@)
    } else if s == "אנטארקטיקה"@ {
        Some("AQ"@)
    } else if s == "אנטיגואה וברבודה"@ {
        Some("AG"@)
    } else if s == "ארגנטינה"@ {
        Some("AR"@)
    } else if s == "ארמניה"@ {
        Some("AM"@)
    } else if s == "ארובה"@ {
        Some("AW"@)
    } else if s == "אוסטרליה"@ {
        Some("AU"@)
    } else if s == "אוסטריה"@ {
        Some("AT"@)
    } else if s == "אזרבייג'ן"@ {
        Some("AZ"@)
    } else if s == "אזורביג'אן"@ {
        Some("AZ"@)
    } else if s == "בהאמה"@ {
        Some("BS"@)
    } else if s == "בחריין"@ {
        Some("BH"@)
    } else if s == "בנגלדש"@ {
        Some("BD"@)
    } else if s == "ברבדוס"@ {
        Some("BB"@)
    } else if s == "בלארוס"@ {
        Some("BY"@)
    } else if s == "בלרוס"@ {
        Some("BY"@)
    } else if s == "בלורוס"@ {
        Some("BY"@)
    } else if s == "בילרוס"@ {
        Some("BY"@)
    } else if s == "בלגיה"@ {
        Some("BE"@)
    } else if s == "בליז"@ {
        Some("BZ"@)
    } else if s == "בנין"@ {
        Some("BJ"@)
    } else if s == "ברמודה"@ {
        Some("BM"@)
    } else if s == "בהוטן"@ {
        Some("BT"@)
    } else if s == "בוליביה"@ {
        Some("BO"@)
    } else if s == "בוסניה והרצגובינה"@ {
        Some("BA"@)
    } else if s == "בוצואנה"@ {
        Some("BW"@)
    } else if s == "אי בובט"@ {
        Some("BV"@)
    } else if s == "ברזיל"@ {
        Some("BR"@)
    } else if s == "שטח האוקיאנוס ההודי הבריטי"@ {
        Some("IO"@)
    } else if s == "ברוניי דארוסלאם"@ {
        Some("BN"@)
    } else if s == "בולגריה"@ {
        Some("BG"@)
    } else if s == "בורקינה פאסו"@ {
        Some("BF"@)
    } else if s == "בורונדי"@ {
        Some("BI"@)
    } else if s == "קאבו ורדה"@ {
        Some("CV"@)
    } else if s == "קמבודיה"@ {
        Some("KH"@)
    } else if s == "קמרון"@ {
        Some("CM"@)
    } else if s == "קנדה"@ {
        Some("CA"@)
    } else if s == "איי קיימן"@ {
        Some("KY"@)
    } else if s == "הרפובליקה המרכז - אפריקאית"@ {
        Some("CF"@)
    } else if s == "צ'אד"@ {
        Some("TD"@)
    } else if s == "צ'ילה"@ {
        Some("CL"@)
    } else if s == "צילה"@ {
        Some("CL"@)
    } else if s == "סין"@ {
        Some("CN"@)
    } else if s == "China"@ {
        Some("CN"@)
    } else if s == "אי חג המולד"@ {
        Some("CX"@)
    } else if s == "איי קוקוס (קילינג)"@ {
        Some("CC"@)
    } else if s == "קולומביה"@ {
        Some("CO"@)
    } else if s == "קומורוס"@ {
        Some("KM"@)
    } else if s == "קונגו (הרפובליקה הדמוקרטית של)"@ {
        Some("CD"@)
    } else if s == "קונגו"@ {
        Some("CG"@)
    } else if s == "איי קוק"@ {
        Some("CK"@)
    } else if s == "קוסטה ריקה"@ {
        Some("CR"@)
    } else if s == "קוסטה ריקו"@ {
        Some("CR"@)
    } else if s == "Côte d'Ivoire"@ {
        Some("CI"@)
    } else if s == "קרואטיה"@ {
        Some("HR"@)
    } else if s == "קובה"@ {
        Some("CU"@)
    } else if s == "קוראסאו"@ {
        Some("CW"@)
    } else if s == "קַפרִיסִין"@ {
        Some("CY"@)
    } else if s == "צ'כיה"@ {
        Some("CZ"@)
    } else if s == "צכיה"@ {
        Some("CZ"@)
    } else if s == "דנמרק"@ {
        Some("DK"@)
    } else if s == "ג'יבוטי"@ {
        Some("DJ"@)
    } else if s == "דומיניקה"@ {
        Some("DM"@)
    } else if s == "הרפובליקה הדומיניקנית"@ {
        Some("DO"@)
    } else if s == "הרפובליקה הדומניקנית"@ {
        Some("DO"@)
    } else if s == "אקוודור"@ {
        Some("EC"@)
    } else if s == "מצרים"@ {
        Some("EG"@)
    } else if s == "אל סלבדור"@ {
        Some("SV"@)
    } else if s == "גיניאה המשוונית"@ {
        Some("GQ"@)
    } else if s == "אריתריאה"@ {
        Some("ER"@)
    } else if s == "אסטוניה"@ {
        Some("EE"@)
    } else if s == "Eswatini"@ {
        Some("SZ"@)
    } else if s == "אֶתִיוֹפִּיָה"@ {
        Some("ET"@)
    } else if s == "איי פוקלנד"@ {
        Some("FK"@)
    } else if s == "איי פרו"@ {
        Some("FO"@)
    } else if s == "פיג'י"@ {
        Some("FJ"@)
    } else if s == "פינלנד"@ {
        Some("FI"@)
    } else if s == "צרפת"@ {
        Some("FR"@)
    } else if s == "גיאנה הצרפתית"@ {
        Some("GF"@)
    } else if s == "פולינזיה הצרפתית"@ {
        Some("PF"@)
    } else if s == "שטחי דרום צרפתים"@ {
        Some("TF"@)
    } else if s == "גבון"@ {
        Some("GA"@)
    } else if s == "גמביה"@ {
        Some("GM"@)
    } else if s == "ג'ורג'יה"@ {
        Some("GE"@)
    } else if s == "גאורגייה"@ {
        Some("GE"@)
    } else if s == "גאורגיה"@ {
        Some("GE"@)
    } else if s == "גרוזיה"@ {
        Some("GE"@)
    } else if s == "גרמניה"@ {
        Some("DE"@)
    } else if s == "גאנה"@ {
        Some("GH"@)
    } else if s == "גיברלטר"@ {
        Some("GI"@)
    } else if s == "יוון"@ {
        Some("GR"@)
    } else if s == "גרינלנד"@ {
        Some("GL"@)
    } else if s == "גרנדה"@ {
        Some("GD"@)
    } else if s == "גואם"@ {
        Some("GU"@)
    } else if s == "גואטמלה"@ {
        Some("GT"@)
    } else if s == "גוואטמלה"@ {
        Some("GT"@)
    } else if s == "גרנזי"@ {
        Some("GG"@)
    } else if s == "גינאה"@ {
        Some("GN"@)
    } else if s == "גינאה-ביסאו"@ {
        Some("GW"@)
    } else if s == "גיאנה"@ {
        Some("GY"@)
    } else if s == "האיטי"@ {
        Some("HT"@)
    } else if s == "שמע את איי ומקדונלד"@ {
        Some("HM"@)
    } else if s == "כורה קדושה"@ {
        Some("VA"@)
    } else if s == "הונדורס"@ {
        Some("HN"@)
    } else if s == "הונג קונג"@ {
        Some("HK"@)
    } else if s == "הונגריה"@ {
        Some("HU"@)
    } else if s == "איסלנד"@ {
        Some("IS"@)
    } else if s == "הודו"@ {
        Some("IN"@)
    } else if s == "אינדונזיה"@ {
        Some("ID"@)
    } else if s == "איראן"@ {
        Some("IR"@)
    } else if s == "עִירַאק"@ {
        Some("IQ"@)
    } else if s == "אירלנד"@ {
        Some("IE"@)
    } else if s == "האי מאן"@ {
        Some("IM"@)
    } else if s == "ישראל"@ {
        Some("IL"@)
    } else if s == "איטליה"@ {
        Some("IT"@)
    } else if s == "ג'מייקה"@ {
        Some("JM"@)
    } else if s == "יפן"@ {
        Some("JP"@)
    } else if s == "ג'רזי"@ {
        Some("JE"@)
    } else if s == "ירדן"@ {
        Some("JO"@)
    } else if s == "קזחסטן"@ {
        Some("KZ"@)
    } else if s == "קניה"@ {
        Some("KE"@)
    } else if s == "קנייה"@ {
        Some("KE"@)
    } else if s == "קיריבטי"@ {
        Some("KI"@)
    } else if s == "קוריאה הצפונית"@ {
        Some("KP"@)
    } else if s == "קוריאה הדרומית"@ {
        Some("KR"@)
    } else if s == "דרום קוריאה"@ {
        Some("KR"@)
    } else if s == "דרום קוראה"@ {
        Some("KR"@)
    } else if s == "קוריאה"@ {
        Some("KR"@)
    } else if s == "כווית"@ {
        Some("KW"@)
    } else if s == "קירגיזסטן"@ {
        Some("KG"@)
    } else if s == "הרפובליקה הדמוקרטית של LAO"@ {
        Some("LA"@)
    } else if s == "לטביה"@ {
        Some("LV"@)
    } else if s == "לבנון"@ {
        Some("LB"@)
    } else if s == "לסוטו"@ {
        Some("LS"@)
    } else if s == "ליבריה"@ {
        Some("LR"@)
    } else if s == "לוב"@ {
        Some("LY"@)
    } else if s == "ליכטנשטיין"@ {
        Some("LI"@)
    } else if s == "ליטא"@ {
        Some("LT"@)
    } else if s == "ליטואניה"@ {
        Some("LT"@)
    } else if s == "לוקסמבורג"@ {
        Some("LU"@)
    } else if s == "מקאו"@ {
        Some("MO"@)
    } else if s == "צפון מקדוניה"@ {
        Some("MK"@)
    } else if s == "מקדוניה"@ {
        Some("MK"@)
    } else if s == "מדגסקר"@ {
        Some("MG"@)
    } else if s == "מלאווי"@ {
        Some("MW"@)
    } else if s == "מלזיה"@ {
        Some("MY"@)
    } else if s == "מלאזיה"@ {
        Some("MY"@)
    } else if s == "המלדיביים"@ {
        Some("MV"@)
    } else if s == "מלי"@ {
        Some("ML"@)
    } else if s == "מלטה"@ {
        Some("MT"@)
    } else if s == "איי מרשל"@ {
        Some("MH"@)
    } else if s == "מרטיניק"@ {
        Some("MQ"@)
    } else if s == "מאוריטניה"@ {
        Some("MR"@)
    } else if s == "מאוריציוס"@ {
        Some("MU"@)
    } else if s == "מיוט"@ {
        Some("YT"@)
    } else if s == "מקסיקו"@ {
        Some("MX"@)
    } else if s == "מכסיקו"@ {
        Some("MX"@)
    } else if s == "מיקרונזיה"@ {
        Some("FM"@)
    } else if s == "מולדובה"@ {
        Some("MD"@)
    } else if s == "מונקו"@ {
        Some("MC"@)
    } else if s == "מונגוליה"@ {
        Some("MN"@)
    } else if s == "מונטנגרו"@ {
        Some("ME"@)
    } else if s == "מונטסראט"@ {
        Some("MS"@)
    } else if s == "מרוקו"@ {
        Some("MA"@)
    } else if s == "מוזמביק"@ {
        Some("MZ"@)
    } else if s == "מיאנמר"@ {
        Some("MM"@)
    } else if s == "נמיביה"@ {
        Some("NA"@)
    } else if s == "נאורו"@ {
        Some("NR"@)
    } else if s == "נפאל"@ {
        Some("NP"@)
    } else if s == "הולנד"@ {
        Some("NL"@)
    } else if s == "קלדוניה החדשה"@ {
        Some("NC"@)
    } else if s == "ניו זילנד"@ {
        Some("NZ"@)
    } else if s == "ניקרגואה"@ {
        Some("NI"@)
    } else if s == "ניז'ר"@ {
        Some("NE"@)
    } else if s == "ניגריה"@ {
        Some("NG"@)
    } else if s == "האי נורפולק"@ {
        Some("NF"@)
    } else if s == "איי צפון מריאנה"@ {
        Some("MP"@)
    } else if s == "נורווגיה"@ {
        Some("NO"@)
    } else if s == "נורבגיה"@ {
        Some("NO"@)
    } else if s == "עומאן"@ {
        Some("OM"@)
    } else if s == "פקיסטן"@ {
        Some("PK"@)
    } else if s == "פקיסטאן"@ {
        Some("PK"@)
    } else if s == "פאלאו"@ {
        Some("PW"@)
    } else if s == "פלסטין"@ {
        Some("PS"@)
    } else if s == "רשות הפלסטינית"@ {
        Some("PS"@)
    } else if s == "פנמה"@ {
        Some("PA"@)
    } else if s == "פפואה גינאה החדשה"@ {
        Some("PG"@)
    } else if s == "פרגוואי"@ {
        Some("PY"@)
    } else if s == "פרו"@ {
        Some("PE"@)
    } else if s == "פיליפינים"@ {
        Some("PH"@)
    } else if s == "פיטקרן"@ {
        Some("PN"@)
    } else if s == "פולין"@ {
        Some("PL"@)
    } else if s == "פורטוגל"@ {
        Some("PT"@)
    } else if s == "פוארטו ריקו"@ {
        Some("PR"@)
    } else if s == "קטאר"@ {
        Some("QA"@)
    } else if s == "איחוד"@ {
        Some("RE"@)
    } else if s == "רומניה"@ {
        Some("RO"@)
    } else if s == "רוסיה"@ {
        Some("RU"@)
    } else if s == "רואנדה"@ {
        Some("RW"@)
    } else if s == "סנט ברתלמי"@ {
        Some("BL"@)
    } else if s == "סנט קיטס ונביס"@ {
        Some("KN"@)
    } else if s == "סנט לוסיה"@ {
        Some("LC"@)
    } else if s == "סנט פייר ומיקלון"@ {
        Some("PM"@)
    } else if s == "וינסנט הקדוש ו ה - גרנידיים"@ {
        Some("VC"@)
    } else if s == "סמואה"@ {
        Some("WS"@)
    } else if s == "סן מרינו"@ {
        Some("SM"@)
    } else if s == "סאו טומה ופרינסיפה"@ {
        Some("ST"@)
    } else if s == "ערב הסעודית"@ {
        Some("SA"@)
    } else if s == "סנגל"@ {
        Some("SN"@)
    } else if s == "סרביה"@ {
        Some("RS"@)
    } else if s == "סיישל"@ {
        Some("SC"@)
    } else if s == "סיירה לאונה"@ {
        Some("SL"@)
    } else if s == "סינגפור"@ {
        Some("SG"@)
    } else if s == "סינט מרטן (חלק הולנדי)"@ {
        Some("SX"@)
    } else if s == "סלובקיה"@ {
        Some("SK"@)
    } else if s == "סלובניה"@ {
        Some("SI"@)
    } else if s == "איי שלמה"@ {
        Some("SB"@)
    } else if s == "סומליה"@ {
        Some("SO"@)
    } else if s == "דרום אפריקה"@ {
        Some("ZA"@)
    } else if s == "דרום ג'ורג'יה ואיי סנדוויץ 'הדרום"@ {
        Some("GS"@)
    } else if s == "דרום סודן"@ {
        Some("SS"@)
    } else if s == "ספרד"@ {
        Some("ES"@)
    } else if s == "סרי לנקה"@ {
        Some("LK"@)
    } else if s == "סרילנקה"@ {
        Some("LK"@)
    } else if s == "סודן"@ {
        Some("SD"@)
    } else if s == "סורינאם"@ {
        Some("SR"@)
    } else if s == "שוודיה"@ {
        Some("SE"@)
    } else if s == "שבדיה"@ {
        Some("SE"@)
    } else if s == "שוויץ"@ {
        Some("CH"@)
    } else if s == "שווייץ"@ {
        Some("CH"@)
    } else if s == "הרפובליקה הערבית של סוריה"@ {
        Some("SY"@)
    } else if s == "טייוואן"@ {
        Some("TW"@)
    } else if s == "טאיוון"@ {
        Some("TW"@)
    } else if s == "טיוואן"@ {
        Some("TW"@)
    } else if s == "הרפובליקה הסינית (טאיוואן)"@ {
        Some("TW"@)
    } else if s == "טג'יקיסטן"@ {
        Some("TJ"@)
    } else if s == "טנזניה"@ {
        Some("TZ"@)
    } else if s == "תאילנד"@ {
        Some("TH"@)
    } else if s == "טימור-לסטה"@ {
        Some("TL"@)
    } else if s == "ללכת"@ {
        Some("TG"@)
    } else if s == "טוקלאו"@ {
        Some("TK"@)
    } else if s == "טונגה"@ {
        Some("TO"@)
    } else if s == "טרינידד וטובגו"@ {
        Some("TT"@)
    } else if s == "תוניסיה"@ {
        Some("TN"@)
    } else if s == "תורכיה"@ {
        Some("TR"@)
    } else if s == "טורקיה"@ {
        Some("TR"@)
    } else if s == "טורקמניסטן"@ {
        Some("TM"@)
    } else if s == "איי טורקס וקאיקוס"@ {
        Some("TC"@)
    } else if s == "טובלו"@ {
        Some("TV"@)
    } else if s == "אוגנדה"@ {
        Some("UG"@)
    } else if s == "אוקראינה"@ {
        Some("UA"@)
    } else if s == "איחוד האמירויות הערביות"@ {
        Some("AE"@)
    } else if s == "וד האמירויות הערביות"@ {
        Some("AE"@)
    } else if s == "איחוד האמירויות"@ {
        Some("AE"@)
    } else if s == "איחוד אימריות"@ {
        Some("AE"@)
    } else if s == "דובאי"@ {
        Some("AE"@)
    } else if s == "סקוטלנד"@ {
        Some("GB"@)
    } else if s == "אנגליה"@ {
        Some("GB"@)
    } else if s == "בריטניה"@ {
        Some("GB"@)
    } else if s == "הממלכה המאוחדת"@ {
        Some("GB"@)
    } else if s == "לונדון"@ {
        Some("GB"@)
    } else if s == "ארצות הברית קטינה איים חיצוניים"@ {
        Some("UM"@)
    } else if s == "ארצות הברית"@ {
        Some("US"@)
    } else if s == "ארה\"ב"@ {
        Some("US"@)
    } else if s == "ארהב"@ {
        Some("US"@)
    } else if s == "פורטו ריקו"@ {
        Some("US"@)
    } else if s == "אורוגוואי"@ {
        Some("UY"@)
    } else if s == "אורוגואי"@ {
        Some("UY"@)
    } else if s == "אוזבקיסטן"@ {
        Some("UZ"@)
    } else if s == "ונואטו"@ {
        Some("VU"@)
    } else if s == "ונצואלה"@ {
        Some("VE"@)
    } else if s == "וייט נאם"@ {
        Some("VN"@)
    } else if s == "ויטנאם"@ {
        Some("VN"@)
    } else if s == "ויאטנם"@ {
        Some("VN"@)
    } else if s == "וייטנאם"@ {
        Some("VN"@)
    } else if s == "איי הבתולה (בריטים)"@ {
        Some("VG"@)
    } else if s == "וואליס ופוטונה"@ {
        Some("WF"@)
    } else if s == "סהרה המערבית"@ {
        Some("EH"@)
    } else if s == "תֵימָן"@ {
        Some("YE"@)
    } else if s == "זמביה"@ {
        Some("ZM"@)
    } else if s == "זימבבואה"@ {
        Some("ZW"@)
    } else {
        None
    }
}

/// Looks a country text up in the fixed table.
#[verifier::rlimit(100)]
pub fn to_country_code(s: &str) -> (r: Option<&'static str>)
    ensures
        match r {
            Some(c) => spec_country_code(s@) == Some(c@),
            None => spec_country_code(s@) is None,
        },
{
    if str_eq(s, "אפגניסטן") {
        Some("AF")
    } else if str_eq(s, "איי אלנד") {
        Some("AX")
    } else if str_eq(s, "אלבניה") {
        Some("AL")
    } else if str_eq(s, "אלג'יריה") {
        Some("DZ")
    } else if str_eq(s, "סמואה האמריקנית") {
        Some("AS")
    } else if str_eq(s, "אנדורה") {
        Some("AD")
    } else if str_eq(s, "אנגולה") {
        Some("AO")
    } else if str_eq(s, "אנגווילה") {
        Some("AI")
    } else if str_eq(s, "אנטארקטיקה") {
        Some("AQ")
    } else if str_eq(s, "אנטיגואה וברבודה") {
        Some("AG")
    } else if str_eq(s, "ארגנטינה") {
        Some("AR")
    } else if str_eq(s, "ארמניה") {
        Some("AM")
    } else if str_eq(s, "ארובה") {
        Some("AW")
    } else if str_eq(s, "אוסטרליה") {
        Some("AU")
    } else if str_eq(s, "אוסטריה") {
        Some("AT")
    } else if str_eq(s, "אזרבייג'ן") {
        Some("AZ")
    } else if str_eq(s, "אזורביג'אן") {
        Some("AZ")
    } else if str_eq(s, "בהאמה") {
        Some("BS")
    } else if str_eq(s, "בחריין") {
        Some("BH")
    } else if str_eq(s, "בנגלדש") {
        Some("BD")
    } else if str_eq(s, "ברבדוס") {
        Some("BB")
    } else if str_eq(s, "בלארוס") {
        Some("BY")
    } else if str_eq(s, "בלרוס") {
        Some("BY")
    } else if str_eq(s, "בלורוס") {
        Some("BY")
    } else if str_eq(s, "בילרוס") {
        Some("BY")
    } else if str_eq(s, "בלגיה") {
        Some("BE")
    } else if str_eq(s, "בליז") {
        Some("BZ")
    } else if str_eq(s, "בנין") {
        Some("BJ")
    } else if str_eq(s, "ברמודה") {
        Some("BM")
    } else if str_eq(s, "בהוטן") {
        Some("BT")
    } else if str_eq(s, "בוליביה") {
        Some("BO")
    } else if str_eq(s, "בוסניה והרצגובינה") {
        Some("BA")
    } else if str_eq(s, "בוצואנה") {
        Some("BW")
    } else if str_eq(s, "אי בובט") {
        Some("BV")
    } else if str_eq(s, "ברזיל") {
        Some("BR")
    } else if str_eq(s, "שטח האוקיאנוס ההודי הבריטי") {
        Some("IO")
    } else if str_eq(s, "ברוניי דארוסלאם") {
        Some("BN")
    } else if str_eq(s, "בולגריה") {
        Some("BG")
    } else if str_eq(s, "בורקינה פאסו") {
        Some("BF")
    } else if str_eq(s, "בורונדי") {
        Some("BI")
    } else if str_eq(s, "קאבו ורדה") {
        Some("CV")
    } else if str_eq(s, "קמבודיה") {
        Some("KH")
    } else if str_eq(s, "קמרון") {
        Some("CM")
    } else if str_eq(s, "קנדה") {
        Some("CA")
    } else if str_eq(s, "איי קיימן") {
        Some("KY")
    } else if str_eq(s, "הרפובליקה המרכז - אפריקאית") {
        Some("CF")
    } else if str_eq(s, "צ'אד") {
        Some("TD")
    } else if str_eq(s, "צ'ילה") {
        Some("CL")
    } else if str_eq(s, "צילה") {
        Some("CL")
    } else if str_eq(s, "סין") {
        Some("CN")
    } else if str_eq(s, "China") {
        Some("CN")
    } else if str_eq(s, "אי חג המולד") {
        Some("CX")
    } else if str_eq(s, "איי קוקוס (קילינג)") {
        Some("CC")
    } else if str_eq(s, "קולומביה") {
        Some("CO")
    } else if str_eq(s, "קומורוס") {
        Some("KM")
    } else if str_eq(s, "קונגו (הרפובליקה הדמוקרטית של)") {
        Some("CD")
    } else if str_eq(s, "קונגו") {
        Some("CG")
    } else if str_eq(s, "איי קוק") {
        Some("CK")
    } else if str_eq(s, "קוסטה ריקה") {
        Some("CR")
    } else if str_eq(s, "קוסטה ריקו") {
        Some("CR")
    } else if str_eq(s, "Côte d'Ivoire") {
        Some("CI")
    } else if str_eq(s, "קרואטיה") {
        Some("HR")
    } else if str_eq(s, "קובה") {
        Some("CU")
    } else if str_eq(s, "קוראסאו") {
        Some("CW")
    } else if str_eq(s, "קַפרִיסִין") {
        Some("CY")
    } else if str_eq(s, "צ'כיה") {
        Some("CZ")
    } else if str_eq(s, "צכיה") {
        Some("CZ")
    } else if str_eq(s, "דנמרק") {
        Some("DK")
    } else if str_eq(s, "ג'יבוטי") {
        Some("DJ")
    } else if str_eq(s, "דומיניקה") {
        Some("DM")
    } else if str_eq(s, "הרפובליקה הדומיניקנית") {
        Some("DO")
    } else if str_eq(s, "הרפובליקה הדומניקנית") {
        Some("DO")
    } else if str_eq(s, "אקוודור") {
        Some("EC")
    } else if str_eq(s, "מצרים") {
        Some("EG")
    } else if str_eq(s, "אל סלבדור") {
        Some("SV")
    } else if str_eq(s, "גיניאה המשוונית") {
        Some("GQ")
    } else if str_eq(s, "אריתריאה") {
        Some("ER")
    } else if str_eq(s, "אסטוניה") {
        Some("EE")
    } else if str_eq(s, "Eswatini") {
        Some("SZ")
    } else if str_eq(s, "אֶתִיוֹפִּיָה") {
        Some("ET")
    } else if str_eq(s, "איי פוקלנד") {
        Some("FK")
    } else if str_eq(s, "איי פרו") {
        Some("FO")
    } else if str_eq(s, "פיג'י") {
        Some("FJ")
    } else if str_eq(s, "פינלנד") {
        Some("FI")
    } else if str_eq(s, "צרפת") {
        Some("FR")
    } else if str_eq(s, "גיאנה הצרפתית") {
        Some("GF")
    } else if str_eq(s, "פולינזיה הצרפתית") {
        Some("PF")
    } else if str_eq(s, "שטחי דרום צרפתים") {
        Some("TF")
    } else if str_eq(s, "גבון") {
        Some("GA")
    } else if str_eq(s, "גמביה") {
        Some("GM")
    } else if str_eq(s, "ג'ורג'יה") {
        Some("GE")
    } else if str_eq(s, "גאורגייה") {
        Some("GE")
    } else if str_eq(s, "גאורגיה") {
        Some("GE")
    } else if str_eq(s, "גרוזיה") {
        Some("GE")
    } else if str_eq(s, "גרמניה") {
        Some("DE")
    } else if str_eq(s, "גאנה") {
        Some("GH")
    } else if str_eq(s, "גיברלטר") {
        Some("GI")
    } else if str_eq(s, "יוון") {
        Some("GR")
    } else if str_eq(s, "גרינלנד") {
        Some("GL")
    } else if str_eq(s, "גרנדה") {
        Some("GD")
    } else if str_eq(s, "גואם") {
        Some("GU")
    } else if str_eq(s, "גואטמלה") {
        Some("GT")
    } else if str_eq(s, "גוואטמלה") {
        Some("GT")
    } else if str_eq(s, "גרנזי") {
        Some("GG")
    } else if str_eq(s, "גינאה") {
        Some("GN")
    } else if str_eq(s, "גינאה-ביסאו") {
        Some("GW")
    } else if str_eq(s, "גיאנה") {
        Some("GY")
    } else if str_eq(s, "האיטי") {
        Some("HT")
    } else if str_eq(s, "שמע את איי ומקדונלד") {
        Some("HM")
    } else if str_eq(s, "כורה קדושה") {
        Some("VA")
    } else if str_eq(s, "הונדורס") {
        Some("HN")
    } else if str_eq(s, "הונג קונג") {
        Some("HK")
    } else if str_eq(s, "הונגריה") {
        Some("HU")
    } else if str_eq(s, "איסלנד") {
        Some("IS")
    } else if str_eq(s, "הודו") {
        Some("IN")
    } else if str_eq(s, "אינדונזיה") {
        Some("ID")
    } else if str_eq(s, "איראן") {
        Some("IR")
    } else if str_eq(s, "עִירַאק") {
        Some("IQ")
    } else if str_eq(s, "אירלנד") {
        Some("IE")
    } else if str_eq(s, "האי מאן") {
        Some("IM")
    } else if str_eq(s, "ישראל") {
        Some("IL")
    } else if str_eq(s, "איטליה") {
        Some("IT")
    } else if str_eq(s, "ג'מייקה") {
        Some("JM")
    } else if str_eq(s, "יפן") {
        Some("JP")
    } else if str_eq(s, "ג'רזי") {
        Some("JE")
    } else if str_eq(s, "ירדן") {
        Some("JO")
    } else if str_eq(s, "קזחסטן") {
        Some("KZ")
    } else if str_eq(s, "קניה") {
        Some("KE")
    } else if str_eq(s, "קנייה") {
        Some("KE")
    } else if str_eq(s, "קיריבטי") {
        Some("KI")
    } else if str_eq(s, "קוריאה הצפונית") {
        Some("KP")
    } else if str_eq(s, "קוריאה הדרומית") {
        Some("KR")
    } else if str_eq(s, "דרום קוריאה") {
        Some("KR")
    } else if str_eq(s, "דרום קוראה") {
        Some("KR")
    } else if str_eq(s, "קוריאה") {
        Some("KR")
    } else if str_eq(s, "כווית") {
        Some("KW")
    } else if str_eq(s, "קירגיזסטן") {
        Some("KG")
    } else if str_eq(s, "הרפובליקה הדמוקרטית של LAO") {
        Some("LA")
    } else if str_eq(s, "לטביה") {
        Some("LV")
    } else if str_eq(s, "לבנון") {
        Some("LB")
    } else if str_eq(s, "לסוטו") {
        Some("LS")
    } else if str_eq(s, "ליבריה") {
        Some("LR")
    } else if str_eq(s, "לוב") {
        Some("LY")
    } else if str_eq(s, "ליכטנשטיין") {
        Some("LI")
    } else if str_eq(s, "ליטא") {
        Some("LT")
    } else if str_eq(s, "ליטואניה") {
        Some("LT")
    } else if str_eq(s, "לוקסמבורג") {
        Some("LU")
    } else if str_eq(s, "מקאו") {
        Some("MO")
    } else if str_eq(s, "צפון מקדוניה") {
        Some("MK")
    } else if str_eq(s, "מקדוניה") {
        Some("MK")
    } else if str_eq(s, "מדגסקר") {
        Some("MG")
    } else if str_eq(s, "מלאווי") {
        Some("MW")
    } else if str_eq(s, "מלזיה") {
        Some("MY")
    } else if str_eq(s, "מלאזיה") {
        Some("MY")
    } else if str_eq(s, "המלדיביים") {
        Some("MV")
    } else if str_eq(s, "מלי") {
        Some("ML")
    } else if str_eq(s, "מלטה") {
        Some("MT")
    } else if str_eq(s, "איי מרשל") {
        Some("MH")
    } else if str_eq(s, "מרטיניק") {
        Some("MQ")
    } else if str_eq(s, "מאוריטניה") {
        Some("MR")
    } else if str_eq(s, "מאוריציוס") {
        Some("MU")
    } else if str_eq(s, "מיוט") {
        Some("YT")
    } else if str_eq(s, "מקסיקו") {
        Some("MX")
    } else if str_eq(s, "מכסיקו") {
        Some("MX")
    } else if str_eq(s, "מיקרונזיה") {
        Some("FM")
    } else if str_eq(s, "מולדובה") {
        Some("MD")
    } else if str_eq(s, "מונקו") {
        Some("MC")
    } else if str_eq(s, "מונגוליה") {
        Some("MN")
    } else if str_eq(s, "מונטנגרו") {
        Some("ME")
    } else if str_eq(s, "מונטסראט") {
        Some("MS")
    } else if str_eq(s, "מרוקו") {
        Some("MA")
    } else if str_eq(s, "מוזמביק") {
        Some("MZ")
    } else if str_eq(s, "מיאנמר") {
        Some("MM")
    } else if str_eq(s, "נמיביה") {
        Some("NA")
    } else if str_eq(s, "נאורו") {
        Some("NR")
    } else if str_eq(s, "נפאל") {
        Some("NP")
    } else if str_eq(s, "הולנד") {
        Some("NL")
    } else if str_eq(s, "קלדוניה החדשה") {
        Some("NC")
    } else if str_eq(s, "ניו זילנד") {
        Some("NZ")
    } else if str_eq(s, "ניקרגואה") {
        Some("NI")
    } else if str_eq(s, "ניז'ר") {
        Some("NE")
    } else if str_eq(s, "ניגריה") {
        Some("NG")
    } else if str_eq(s, "האי נורפולק") {
        Some("NF")
    } else if str_eq(s, "איי צפון מריאנה") {
        Some("MP")
    } else if str_eq(s, "נורווגיה") {
        Some("NO")
    } else if str_eq(s, "נורבגיה") {
        Some("NO")
    } else if str_eq(s, "עומאן") {
        Some("OM")
    } else if str_eq(s, "פקיסטן") {
        Some("PK")
    } else if str_eq(s, "פקיסטאן") {
        Some("PK")
    } else if str_eq(s, "פאלאו") {
        Some("PW")
    } else if str_eq(s, "פלסטין") {
        Some("PS")
    } else if str_eq(s, "רשות הפלסטינית") {
        Some("PS")
    } else if str_eq(s, "פנמה") {
        Some("PA")
    } else if str_eq(s, "פפואה גינאה החדשה") {
        Some("PG")
    } else if str_eq(s, "פרגוואי") {
        Some("PY")
    } else if str_eq(s, "פרו") {
        Some("PE")
    } else if str_eq(s, "פיליפינים") {
        Some("PH")
    } else if str_eq(s, "פיטקרן") {
        Some("PN")
    } else if str_eq(s, "פולין") {
        Some("PL")
    } else if str_eq(s, "פורטוגל") {
        Some("PT")
    } else if str_eq(s, "פוארטו ריקו") {
        Some("PR")
    } else if str_eq(s, "קטאר") {
        Some("QA")
    } else if str_eq(s, "איחוד") {
        Some("RE")
    } else if str_eq(s, "רומניה") {
        Some("RO")
    } else if str_eq(s, "רוסיה") {
        Some("RU")
    } else if str_eq(s, "רואנדה") {
        Some("RW")
    } else if str_eq(s, "סנט ברתלמי") {
        Some("BL")
    } else if str_eq(s, "סנט קיטס ונביס") {
        Some("KN")
    } else if str_eq(s, "סנט לוסיה") {
        Some("LC")
    } else if str_eq(s, "סנט פייר ומיקלון") {
        Some("PM")
    } else if str_eq(s, "וינסנט הקדוש ו ה - גרנידיים") {
        Some("VC")
    } else if str_eq(s, "סמואה") {
        Some("WS")
    } else if str_eq(s, "סן מרינו") {
        Some("SM")
    } else if str_eq(s, "סאו טומה ופרינסיפה") {
        Some("ST")
    } else if str_eq(s, "ערב הסעודית") {
        Some("SA")
    } else if str_eq(s, "סנגל") {
        Some("SN")
    } else if str_eq(s, "סרביה") {
        Some("RS")
    } else if str_eq(s, "סיישל") {
        Some("SC")
    } else if str_eq(s, "סיירה לאונה") {
        Some("SL")
    } else if str_eq(s, "סינגפור") {
        Some("SG")
    } else if str_eq(s, "סינט מרטן (חלק הולנדי)") {
        Some("SX")
    } else if str_eq(s, "סלובקיה") {
        Some("SK")
    } else if str_eq(s, "סלובניה") {
        Some("SI")
    } else if str_eq(s, "איי שלמה") {
        Some("SB")
    } else if str_eq(s, "סומליה") {
        Some("SO")
    } else if str_eq(s, "דרום אפריקה") {
        Some("ZA")
    } else if str_eq(s, "דרום ג'ורג'יה ואיי סנדוויץ 'הדרום") {
        Some("GS")
    } else if str_eq(s, "דרום סודן") {
        Some("SS")
    } else if str_eq(s, "ספרד") {
        Some("ES")
    } else if str_eq(s, "סרי לנקה") {
        Some("LK")
    } else if str_eq(s, "סרילנקה") {
        Some("LK")
    } else if str_eq(s, "סודן") {
        Some("SD")
    } else if str_eq(s, "סורינאם") {
        Some("SR")
    } else if str_eq(s, "שוודיה") {
        Some("SE")
    } else if str_eq(s, "שבדיה") {
        Some("SE")
    } else if str_eq(s, "שוויץ") {
        Some("CH")
    } else if str_eq(s, "שווייץ") {
        Some("CH")
    } else if str_eq(s, "הרפובליקה הערבית של סוריה") {
        Some("SY")
    } else if str_eq(s, "טייוואן") {
        Some("TW")
    } else if str_eq(s, "טאיוון") {
        Some("TW")
    } else if str_eq(s, "טיוואן") {
        Some("TW")
    } else if str_eq(s, "הרפובליקה הסינית (טאיוואן)") {
        Some("TW")
    } else if str_eq(s, "טג'יקיסטן") {
        Some("TJ")
    } else if str_eq(s, "טנזניה") {
        Some("TZ")
    } else if str_eq(s, "תאילנד") {
        Some("TH")
    } else if str_eq(s, "טימור-לסטה") {
        Some("TL")
    } else if str_eq(s, "ללכת") {
        Some("TG")
    } else if str_eq(s, "טוקלאו") {
        Some("TK")
    } else if str_eq(s, "טונגה") {
        Some("TO")
    } else if str_eq(s, "טרינידד וטובגו") {
        Some("TT")
    } else if str_eq(s, "תוניסיה") {
        Some("TN")
    } else if str_eq(s, "תורכיה") {
        Some("TR")
    } else if str_eq(s, "טורקיה") {
        Some("TR")
    } else if str_eq(s, "טורקמניסטן") {
        Some("TM")
    } else if str_eq(s, "איי טורקס וקאיקוס") {
        Some("TC")
    } else if str_eq(s, "טובלו") {
        Some("TV")
    } else if str_eq(s, "אוגנדה") {
        Some("UG")
    } else if str_eq(s, "אוקראינה") {
        Some("UA")
    } else if str_eq(s, "איחוד האמירויות הערביות") {
        Some("AE")
    } else if str_eq(s, "וד האמירויות הערביות") {
        Some("AE")
    } else if str_eq(s, "איחוד האמירויות") {
        Some("AE")
    } else if str_eq(s, "איחוד אימריות") {
        Some("AE")
    } else if str_eq(s, "דובאי") {
        Some("AE")
    } else if str_eq(s, "סקוטלנד") {
        Some("GB")
    } else if str_eq(s, "אנגליה") {
        Some("GB")
    } else if str_eq(s, "בריטניה") {
        Some("GB")
    } else if str_eq(s, "הממלכה המאוחדת") {
        Some("GB")
    } else if str_eq(s, "לונדון") {
        Some("GB")
    } else if str_eq(s, "ארצות הברית קטינה איים חיצוניים") {
        Some("UM")
    } else if str_eq(s, "ארצות הברית") {
        Some("US")
    } else if str_eq(s, "ארה\"ב") {
        Some("US")
    } else if str_eq(s, "ארהב") {
        Some("US")
    } else if str_eq(s, "פורטו ריקו") {
        Some("US")
    } else if str_eq(s, "אורוגוואי") {
        Some("UY")
    } else if str_eq(s, "אורוגואי") {
        Some("UY")
    } else if str_eq(s, "אוזבקיסטן") {
        Some("UZ")
    } else if str_eq(s, "ונואטו") {
        Some("VU")
    } else if str_eq(s, "ונצואלה") {
        Some("VE")
    } else if str_eq(s, "וייט נאם") {
        Some("VN")
    } else if str_eq(s, "ויטנאם") {
        Some("VN")
    } else if str_eq(s, "ויאטנם") {
        Some("VN")
    } else if str_eq(s, "וייטנאם") {
        Some("VN")
    } else if str_eq(s, "איי הבתולה (בריטים)") {
        Some("VG")
    } else if str_eq(s, "וואליס ופוטונה") {
        Some("WF")
    } else if str_eq(s, "סהרה המערבית") {
        Some("EH")
    } else if str_eq(s, "תֵימָן") {
        Some("YE")
    } else if str_eq(s, "זמביה") {
        Some("ZM")
    } else if str_eq(s, "זימבבואה") {
        Some("ZW")
    } else {
        None
    }
}

} // verus!
