//! Nutrition facts as the storefronts print them: the nutrient kind, the
//! unit, and the number, each recovered from free Hebrew text.

use vstd::prelude::*;

use crate::strutil::ends_with;
use crate::strutil::has_substring;
use crate::strutil::str_concat;
use crate::strutil::str_ends_with;
use crate::strutil::str_eq;
use crate::strutil::str_has_substring;

verus! {

/// The nutrient a table row speaks of; free text that matches no known name
/// is carried as it stands.
#[derive(Debug)]
pub enum NutritionType {
    AdditionalSugar,
    Ash,
    B1,
    B12,
    B2,
    B3,
    B5,
    B6,
    B8,
    Bicarbonate,
    Caffein,
    Calcium,
    Carb,
    Cellulose,
    Chloride,
    Chlorine,
    Cholesterol,
    Choline,
    Copper,
    Energy,
    Fat,
    Fiber,
    Fluorine,
    FolicAcid,
    Humidity,
    Iodine,
    Iron,
    Magnesium,
    Manganese,
    Nitrate,
    Nucleotide,
    Omega3,
    Omega6,
    Phosphorus,
    Polyol,
    Potassium,
    Protein,
    SaturatedFat,
    Selenium,
    Silica,
    Sodium,
    Sugar,
    Sulfur,
    Taurine,
    TransFat,
    VitaminA,
    VitaminC,
    VitaminD,
    VitaminE,
    VitaminK,
    Zinc,
    Undefined(String),
}

pub ghost enum NutritionTypeV {
    AdditionalSugar,
    Ash,
    B1,
    B12,
    B2,
    B3,
    B5,
    B6,
    B8,
    Bicarbonate,
    Caffein,
    Calcium,
    Carb,
    Cellulose,
    Chloride,
    Chlorine,
    Cholesterol,
    Choline,
    Copper,
    Energy,
    Fat,
    Fiber,
    Fluorine,
    FolicAcid,
    Humidity,
    Iodine,
    Iron,
    Magnesium,
    Manganese,
    Nitrate,
    Nucleotide,
    Omega3,
    Omega6,
    Phosphorus,
    Polyol,
    Potassium,
    Protein,
    SaturatedFat,
    Selenium,
    Silica,
    Sodium,
    Sugar,
    Sulfur,
    Taurine,
    TransFat,
    VitaminA,
    VitaminC,
    VitaminD,
    VitaminE,
    VitaminK,
    Zinc,
    Undefined(Seq<char>),
}

impl View for NutritionType {
    type V = NutritionTypeV;

    open spec fn view(&self) -> NutritionTypeV {
        match self {
            NutritionType::AdditionalSugar => NutritionTypeV::AdditionalSugar,
            NutritionType::Ash => NutritionTypeV::Ash,
            NutritionType::B1 => NutritionTypeV::B1,
            NutritionType::B12 => NutritionTypeV::B12,
            NutritionType::B2 => NutritionTypeV::B2,
            NutritionType::B3 => NutritionTypeV::B3,
            NutritionType::B5 => NutritionTypeV::B5,
            NutritionType::B6 => NutritionTypeV::B6,
            NutritionType::B8 => NutritionTypeV::B8,
            NutritionType::Bicarbonate => NutritionTypeV::Bicarbonate,
            NutritionType::Caffein => NutritionTypeV::Caffein,
            NutritionType::Calcium => NutritionTypeV::Calcium,
            NutritionType::Carb => NutritionTypeV::Carb,
            NutritionType::Cellulose => NutritionTypeV::Cellulose,
            NutritionType::Chloride => NutritionTypeV::Chloride,
            NutritionType::Chlorine => NutritionTypeV::Chlorine,
            NutritionType::Cholesterol => NutritionTypeV::Cholesterol,
            NutritionType::Choline => NutritionTypeV::Choline,
            NutritionType::Copper => NutritionTypeV::Copper,
            NutritionType::Energy => NutritionTypeV::Energy,
            NutritionType::Fat => NutritionTypeV::Fat,
            NutritionType::Fiber => NutritionTypeV::Fiber,
            NutritionType::Fluorine => NutritionTypeV::Fluorine,
            NutritionType::FolicAcid => NutritionTypeV::FolicAcid,
            NutritionType::Humidity => NutritionTypeV::Humidity,
            NutritionType::Iodine => NutritionTypeV::Iodine,
            NutritionType::Iron => NutritionTypeV::Iron,
            NutritionType::Magnesium => NutritionTypeV::Magnesium,
            NutritionType::Manganese => NutritionTypeV::Manganese,
            NutritionType::Nitrate => NutritionTypeV::Nitrate,
            NutritionType::Nucleotide => NutritionTypeV::Nucleotide,
            NutritionType::Omega3 => NutritionTypeV::Omega3,
            NutritionType::Omega6 => NutritionTypeV::Omega6,
            NutritionType::Phosphorus => NutritionTypeV::Phosphorus,
            NutritionType::Polyol => NutritionTypeV::Polyol,
            NutritionType::Potassium => NutritionTypeV::Potassium,
            NutritionType::Protein => NutritionTypeV::Protein,
            NutritionType::SaturatedFat => NutritionTypeV::SaturatedFat,
            NutritionType::Selenium => NutritionTypeV::Selenium,
            NutritionType::Silica => NutritionTypeV::Silica,
            NutritionType::Sodium => NutritionTypeV::Sodium,
            NutritionType::Sugar => NutritionTypeV::Sugar,
            NutritionType::Sulfur => NutritionTypeV::Sulfur,
            NutritionType::Taurine => NutritionTypeV::Taurine,
            NutritionType::TransFat => NutritionTypeV::TransFat,
            NutritionType::VitaminA => NutritionTypeV::VitaminA,
            NutritionType::VitaminC => NutritionTypeV::VitaminC,
            NutritionType::VitaminD => NutritionTypeV::VitaminD,
            NutritionType::VitaminE => NutritionTypeV::VitaminE,
            NutritionType::VitaminK => NutritionTypeV::VitaminK,
            NutritionType::Zinc => NutritionTypeV::Zinc,
            NutritionType::Undefined(s) => NutritionTypeV::Undefined(s@),
        }
    }
}

/// The printed name of each nutrient kind.
pub open spec fn spec_type_name(t: NutritionTypeV) -> Seq<char> {
    match t {
        NutritionTypeV::AdditionalSugar => "AdditionalSugar"@,
        NutritionTypeV::Ash => "Ash"@,
        NutritionTypeV::B1 => "B1"@,
        NutritionTypeV::B12 => "B12"@,
        NutritionTypeV::B2 => "B2"@,
        NutritionTypeV::B3 => "B3"@,
        NutritionTypeV::B5 => "B5"@,
        NutritionTypeV::B6 => "B6"@,
        NutritionTypeV::B8 => "B8"@,
        NutritionTypeV::Bicarbonate => "Bicarbonate"@,
        NutritionTypeV::Caffein => "Caffein"@,
        NutritionTypeV::Calcium => "Calcium"@,
        NutritionTypeV::Carb => "Carb"@,
        NutritionTypeV::Cellulose => "Cellulose"@,
        NutritionTypeV::Chloride => "Chloride"@,
        NutritionTypeV::Chlorine => "Chlorine"@,
        NutritionTypeV::Cholesterol => "Cholesterol"@,
        NutritionTypeV::Choline => "Choline"@,
        NutritionTypeV::Copper => "Copper"@,
        NutritionTypeV::Energy => "Energy"@,
        NutritionTypeV::Fat => "Fat"@,
        NutritionTypeV::Fiber => "Fiber"@,
        NutritionTypeV::Fluorine => "Fluorine"@,
        NutritionTypeV::FolicAcid => "FolicAcid"@,
        NutritionTypeV::Humidity => "Humidity"@,
        NutritionTypeV::Iodine => "Iodine"@,
        NutritionTypeV::Iron => "Iron"@,
        NutritionTypeV::Magnesium => "Magnesium"@,
        NutritionTypeV::Manganese => "Manganese"@,
        NutritionTypeV::Nitrate => "Nitrate"@,
        NutritionTypeV::Nucleotide => "Nucleotide"@,
        NutritionTypeV::Omega3 => "Omega3"@,
        NutritionTypeV::Omega6 => "Omega6"@,
        NutritionTypeV::Phosphorus => "Phosphorus"@,
        NutritionTypeV::Polyol => "Polyol"@,
        NutritionTypeV::Potassium => "Potassium"@,
        NutritionTypeV::Protein => "Protein"@,
        NutritionTypeV::SaturatedFat => "SaturatedFat"@,
        NutritionTypeV::Selenium => "Selenium"@,
        NutritionTypeV::Silica => "Silica"@,
        NutritionTypeV::Sodium => "Sodium"@,
        NutritionTypeV::Sugar => "Sugar"@,
        NutritionTypeV::Sulfur => "Sulfur"@,
        NutritionTypeV::Taurine => "Taurine"@,
        NutritionTypeV::TransFat => "TransFat"@,
        NutritionTypeV::VitaminA => "VitaminA"@,
        NutritionTypeV::VitaminC => "VitaminC"@,
        NutritionTypeV::VitaminD => "VitaminD"@,
        NutritionTypeV::VitaminE => "VitaminE"@,
        NutritionTypeV::VitaminK => "VitaminK"@,
        NutritionTypeV::Zinc => "Zinc"@,
        NutritionTypeV::Undefined(s) => s,
    }
}

/// The nutrient named by a row's free text: the first matching entry of an
/// ordered substring table, or the text itself when none matches.
pub open spec fn spec_nutrition_type(s: Seq<char>) -> NutritionTypeV {
    if has_substring(s, "סיבים תזונתיים"@) {
        NutritionTypeV::Fiber
    } else if has_substring(s, "סוכרים מתוך פחמימות"@) || has_substring(s, "סוכרים"@) {
        NutritionTypeV::Sugar
    } else if has_substring(s, "מתוכם סוכר מוסף"@) {
        NutritionTypeV::AdditionalSugar
    } else if has_substring(s, "אפר"@) {
        NutritionTypeV::Ash
    } else if has_substring(s, "דו פחמות"@) {
        NutritionTypeV::Bicarbonate
    } else if has_substring(s, "תאית"@) {
        NutritionTypeV::Cellulose
    } else if has_substring(s, "אנרגיה"@) {
        NutritionTypeV::Energy
    } else if has_substring(s, "חלבונים"@) {
        NutritionTypeV::Protein
    } else if has_substring(s, "פחמימות"@) {
        NutritionTypeV::Carb
    } else if has_substring(s, "שומנים"@) {
        NutritionTypeV::Fat
    } else if has_substring(s, "כולסטרול"@) {
        NutritionTypeV::Cholesterol
    } else if has_substring(s, "נתרן"@) || has_substring(s, "מלח"@) {
        NutritionTypeV::Sodium
    } else if has_substring(s, "שומן רווי"@) {
        NutritionTypeV::SaturatedFat
    } else if has_substring(s, "חומצות שומן טרנס"@) || has_substring(s, "חומצות שומן טראנס"@) {
        NutritionTypeV::TransFat
    } else if has_substring(s, "יוד"@) {
        NutritionTypeV::Iodine
    } else if has_substring(s, "B1 ויטמין"@) || has_substring(s, "ויטמין B1"@) {
        NutritionTypeV::B1
    } else if has_substring(s, "A ויטמין"@) || has_substring(s, "ויטמין A"@) {
        NutritionTypeV::VitaminA
    } else if has_substring(s, "B2 ויטמין"@) || has_substring(s, "ויטמין B2"@) {
        NutritionTypeV::B2
    } else if has_substring(s, "B3 ויטמין"@) || has_substring(s, "ויטמין B3"@) || has_substring(s, "ניאצין"@) || has_substring(s, "ניקוטינאמיד"@) {
        NutritionTypeV::B3
    } else if has_substring(s, "B5 ויטמין"@) || has_substring(s, "ויטמין B5"@) {
        NutritionTypeV::B5
    } else if has_substring(s, "B6 ויטמין"@) || has_substring(s, "ויטמין B6"@) {
        NutritionTypeV::B6
    } else if has_substring(s, "ביוטין"@) {
        NutritionTypeV::B8
    } else if has_substring(s, "B12 ויטמין"@) || has_substring(s, "ויטמין B12"@) {
        NutritionTypeV::B12
    } else if has_substring(s, "C ויטמין"@) || has_substring(s, "ויטמין C"@) || has_substring(s, "חומצה אסקורבית"@) {
        NutritionTypeV::VitaminC
    } else if has_substring(s, "D ויטמין"@) || has_substring(s, "ויטמין D"@) {
        NutritionTypeV::VitaminD
    } else if has_substring(s, "E ויטמין"@) || has_substring(s, "ויטמין E"@) {
        NutritionTypeV::VitaminE
    } else if has_substring(s, "K ויטמין"@) || has_substring(s, "ויטמין K"@) {
        NutritionTypeV::VitaminK
    } else if has_substring(s, "לחות"@) || has_substring(s, "רטיבות"@) {
        NutritionTypeV::Humidity
    } else if has_substring(s, "אבץ"@) {
        NutritionTypeV::Zinc
    } else if has_substring(s, "אשלגן"@) {
        NutritionTypeV::Potassium
    } else if has_substring(s, "ברזל"@) {
        NutritionTypeV::Iron
    } else if has_substring(s, "מגנזיום"@) {
        NutritionTypeV::Magnesium
    } else if has_substring(s, "חנקות"@) {
        NutritionTypeV::Nitrate
    } else if has_substring(s, "רב כהלים"@) {
        NutritionTypeV::Polyol
    } else if has_substring(s, "זרחן"@) {
        NutritionTypeV::Phosphorus
    } else if has_substring(s, "חומצה פולית"@) {
        NutritionTypeV::FolicAcid
    } else if has_substring(s, "קפאין"@) {
        NutritionTypeV::Caffein
    } else if has_substring(s, "טאורין"@) {
        NutritionTypeV::Taurine
    } else if has_substring(s, "סידן"@) {
        NutritionTypeV::Calcium
    } else if has_substring(s, "מנגן"@) {
        NutritionTypeV::Manganese
    } else if has_substring(s, "כולין"@) {
        NutritionTypeV::Choline
    } else if has_substring(s, "כלור"@) {
        NutritionTypeV::Chlorine
    } else if has_substring(s, "כלוריד"@) {
        NutritionTypeV::Chloride
    } else if has_substring(s, "נחושת"@) {
        NutritionTypeV::Copper
    } else if has_substring(s, "סלניום"@) {
        NutritionTypeV::Selenium
    } else if has_substring(s, "נוקלאוטידים"@) {
        NutritionTypeV::Nucleotide
    } else if has_substring(s, "אומגה_3"@) || has_substring(s, "אומגה 3"@) {
        NutritionTypeV::Omega3
    } else if has_substring(s, "אומגה_6"@) {
        NutritionTypeV::Omega6
    } else if has_substring(s, "גפרות"@) {
        NutritionTypeV::Sulfur
    } else if has_substring(s, "סילקה"@) {
        NutritionTypeV::Silica
    } else if has_substring(s, "פלואור"@) {
        NutritionTypeV::Fluorine
    } else {
        NutritionTypeV::Undefined(s)
    }
}

impl NutritionType {
    pub fn str(&self) -> (r: String)
        ensures
            r@ == spec_type_name(self@),
    {
        match self {
            NutritionType::AdditionalSugar => "AdditionalSugar".to_owned(),
            NutritionType::Ash => "Ash".to_owned(),
            NutritionType::B1 => "B1".to_owned(),
            NutritionType::B12 => "B12".to_owned(),
            NutritionType::B2 => "B2".to_owned(),
            NutritionType::B3 => "B3".to_owned(),
            NutritionType::B5 => "B5".to_owned(),
            NutritionType::B6 => "B6".to_owned(),
            NutritionType::B8 => "B8".to_owned(),
            NutritionType::Bicarbonate => "Bicarbonate".to_owned(),
            NutritionType::Caffein => "Caffein".to_owned(),
            NutritionType::Calcium => "Calcium".to_owned(),
            NutritionType::Carb => "Carb".to_owned(),
            NutritionType::Cellulose => "Cellulose".to_owned(),
            NutritionType::Chloride => "Chloride".to_owned(),
            NutritionType::Chlorine => "Chlorine".to_owned(),
            NutritionType::Cholesterol => "Cholesterol".to_owned(),
            NutritionType::Choline => "Choline".to_owned(),
            NutritionType::Copper => "Copper".to_owned(),
            NutritionType::Energy => "Energy".to_owned(),
            NutritionType::Fat => "Fat".to_owned(),
            NutritionType::Fiber => "Fiber".to_owned(),
            NutritionType::Fluorine => "Fluorine".to_owned(),
            NutritionType::FolicAcid => "FolicAcid".to_owned(),
            NutritionType::Humidity => "Humidity".to_owned(),
            NutritionType::Iodine => "Iodine".to_owned(),
            NutritionType::Iron => "Iron".to_owned(),
            NutritionType::Magnesium => "Magnesium".to_owned(),
            NutritionType::Manganese => "Manganese".to_owned(),
            NutritionType::Nitrate => "Nitrate".to_owned(),
            NutritionType::Nucleotide => "Nucleotide".to_owned(),
            NutritionType::Omega3 => "Omega3".to_owned(),
            NutritionType::Omega6 => "Omega6".to_owned(),
            NutritionType::Phosphorus => "Phosphorus".to_owned(),
            NutritionType::Polyol => "Polyol".to_owned(),
            NutritionType::Potassium => "Potassium".to_owned(),
            NutritionType::Protein => "Protein".to_owned(),
            NutritionType::SaturatedFat => "SaturatedFat".to_owned(),
            NutritionType::Selenium => "Selenium".to_owned(),
            NutritionType::Silica => "Silica".to_owned(),
            NutritionType::Sodium => "Sodium".to_owned(),
            NutritionType::Sugar => "Sugar".to_owned(),
            NutritionType::Sulfur => "Sulfur".to_owned(),
            NutritionType::Taurine => "Taurine".to_owned(),
            NutritionType::TransFat => "TransFat".to_owned(),
            NutritionType::VitaminA => "VitaminA".to_owned(),
            NutritionType::VitaminC => "VitaminC".to_owned(),
            NutritionType::VitaminD => "VitaminD".to_owned(),
            NutritionType::VitaminE => "VitaminE".to_owned(),
            NutritionType::VitaminK => "VitaminK".to_owned(),
            NutritionType::Zinc => "Zinc".to_owned(),
            NutritionType::Undefined(s) => s.clone(),
        }
    }

    /// Reads a row's nutrient name. Total: unknown text becomes
    /// `Undefined`.
    #[verifier::rlimit(30)]
    pub fn from_str(s: &str) -> (r: NutritionType)
        ensures
            r@ == spec_nutrition_type(s@),
    {
    if str_has_substring(s, "סיבים תזונתיים") {
        NutritionType::Fiber
    } else if str_has_substring(s, "סוכרים מתוך פחמימות") || str_has_substring(s, "סוכרים") {
        NutritionType::Sugar
    } else if str_has_substring(s, "מתוכם סוכר מוסף") {
        NutritionType::AdditionalSugar
    } else if str_has_substring(s, "אפר") {
        NutritionType::Ash
    } else if str_has_substring(s, "דו פחמות") {
        NutritionType::Bicarbonate
    } else if str_has_substring(s, "תאית") {
        NutritionType::Cellulose
    } else if str_has_substring(s, "אנרגיה") {
        NutritionType::Energy
    } else if str_has_substring(s, "חלבונים") {
        NutritionType::Protein
    } else if str_has_substring(s, "פחמימות") {
        NutritionType::Carb
    } else if str_has_substring(s, "שומנים") {
        NutritionType::Fat
    } else if str_has_substring(s, "כולסטרול") {
        NutritionType::Cholesterol
    } else if str_has_substring(s, "נתרן") || str_has_substring(s, "מלח") {
        NutritionType::Sodium
    } else if str_has_substring(s, "שומן רווי") {
        NutritionType::SaturatedFat
    } else if str_has_substring(s, "חומצות שומן טרנס") || str_has_substring(s, "חומצות שומן טראנס") {
        NutritionType::TransFat
    } else if str_has_substring(s, "יוד") {
        NutritionType::Iodine
    } else if str_has_substring(s, "B1 ויטמין") || str_has_substring(s, "ויטמין B1") {
        NutritionType::B1
    } else if str_has_substring(s, "A ויטמין") || str_has_substring(s, "ויטמין A") {
        NutritionType::VitaminA
    } else if str_has_substring(s, "B2 ויטמין") || str_has_substring(s, "ויטמין B2") {
        NutritionType::B2
    } else if str_has_substring(s, "B3 ויטמין") || str_has_substring(s, "ויטמין B3") || str_has_substring(s, "ניאצין") || str_has_substring(s, "ניקוטינאמיד") {
        NutritionType::B3
    } else if str_has_substring(s, "B5 ויטמין") || str_has_substring(s, "ויטמין B5") {
        NutritionType::B5
    } else if str_has_substring(s, "B6 ויטמין") || str_has_substring(s, "ויטמין B6") {
        NutritionType::B6
    } else if str_has_substring(s, "ביוטין") {
        NutritionType::B8
    } else if str_has_substring(s, "B12 ויטמין") || str_has_substring(s, "ויטמין B12") {
        NutritionType::B12
    } else if str_has_substring(s, "C ויטמין") || str_has_substring(s, "ויטמין C") || str_has_substring(s, "חומצה אסקורבית") {
        NutritionType::VitaminC
    } else if str_has_substring(s, "D ויטמין") || str_has_substring(s, "ויטמין D") {
        NutritionType::VitaminD
    } else if str_has_substring(s, "E ויטמין") || str_has_substring(s, "ויטמין E") {
        NutritionType::VitaminE
    } else if str_has_substring(s, "K ויטמין") || str_has_substring(s, "ויטמין K") {
        NutritionType::VitaminK
    } else if str_has_substring(s, "לחות") || str_has_substring(s, "רטיבות") {
        NutritionType::Humidity
    } else if str_has_substring(s, "אבץ") {
        NutritionType::Zinc
    } else if str_has_substring(s, "אשלגן") {
        NutritionType::Potassium
    } else if str_has_substring(s, "ברזל") {
        NutritionType::Iron
    } else if str_has_substring(s, "מגנזיום") {
        NutritionType::Magnesium
    } else if str_has_substring(s, "חנקות") {
        NutritionType::Nitrate
    } else if str_has_substring(s, "רב כהלים") {
        NutritionType::Polyol
    } else if str_has_substring(s, "זרחן") {
        NutritionType::Phosphorus
    } else if str_has_substring(s, "חומצה פולית") {
        NutritionType::FolicAcid
    } else if str_has_substring(s, "קפאין") {
        NutritionType::Caffein
    } else if str_has_substring(s, "טאורין") {
        NutritionType::Taurine
    } else if str_has_substring(s, "סידן") {
        NutritionType::Calcium
    } else if str_has_substring(s, "מנגן") {
        NutritionType::Manganese
    } else if str_has_substring(s, "כולין") {
        NutritionType::Choline
    } else if str_has_substring(s, "כלור") {
        NutritionType::Chlorine
    } else if str_has_substring(s, "כלוריד") {
        NutritionType::Chloride
    } else if str_has_substring(s, "נחושת") {
        NutritionType::Copper
    } else if str_has_substring(s, "סלניום") {
        NutritionType::Selenium
    } else if str_has_substring(s, "נוקלאוטידים") {
        NutritionType::Nucleotide
    } else if str_has_substring(s, "אומגה_3") || str_has_substring(s, "אומגה 3") {
        NutritionType::Omega3
    } else if str_has_substring(s, "אומגה_6") {
        NutritionType::Omega6
    } else if str_has_substring(s, "גפרות") {
        NutritionType::Sulfur
    } else if str_has_substring(s, "סילקה") {
        NutritionType::Silica
    } else if str_has_substring(s, "פלואור") {
        NutritionType::Fluorine
    } else {
        NutritionType::Undefined(s.to_owned())
    }
    }
}

/// The unit a quantity is given in.
#[derive(Debug)]
pub enum Unit {
    Gram,
    Kcal,
    Microgram,
    Milligram,
    Percent,
    Teaspoon,
    Undefined(String),
}

pub ghost enum UnitV {
    Gram,
    Kcal,
    Microgram,
    Milligram,
    Percent,
    Teaspoon,
    Undefined(Seq<char>),
}

impl View for Unit {
    type V = UnitV;

    open spec fn view(&self) -> UnitV {
        match self {
            Unit::Gram => UnitV::Gram,
            Unit::Kcal => UnitV::Kcal,
            Unit::Microgram => UnitV::Microgram,
            Unit::Milligram => UnitV::Milligram,
            Unit::Percent => UnitV::Percent,
            Unit::Teaspoon => UnitV::Teaspoon,
            Unit::Undefined(s) => UnitV::Undefined(s@),
        }
    }
}

pub open spec fn spec_unit_name(u: UnitV) -> Seq<char> {
    match u {
        UnitV::Gram => "g"@,
        UnitV::Kcal => "kcal"@,
        UnitV::Microgram => "µg"@,
        UnitV::Milligram => "mg"@,
        UnitV::Percent => "%"@,
        UnitV::Teaspoon => "teaspoon"@,
        UnitV::Undefined(s) => s,
    }
}

/// The unit named by the row's Hebrew abbreviation.
pub open spec fn spec_unit(s: Seq<char>) -> UnitV {
    if s == "גרם"@ || s == "גר"@ {
        UnitV::Gram
    } else if s == "קל"@ || s == "קלוריות"@ || s == "קק\"ל"@ {
        UnitV::Kcal
    } else if s == "מג"@ || s == "מגn"@ {
        UnitV::Milligram
    } else if s == "מקג"@ {
        UnitV::Microgram
    } else if s == "%"@ {
        UnitV::Percent
    } else {
        UnitV::Undefined(s)
    }
}

impl Unit {
    pub fn str(&self) -> (r: String)
        ensures
            r@ == spec_unit_name(self@),
    {
        match self {
            Unit::Gram => "g".to_owned(),
            Unit::Kcal => "kcal".to_owned(),
            Unit::Microgram => "µg".to_owned(),
            Unit::Milligram => "mg".to_owned(),
            Unit::Percent => "%".to_owned(),
            Unit::Teaspoon => "teaspoon".to_owned(),
            Unit::Undefined(s) => s.clone(),
        }
    }

    /// Reads a row's unit. Total: an unknown abbreviation becomes
    /// `Undefined`.
    pub fn from_str(s: &str) -> (r: Unit)
        ensures
            r@ == spec_unit(s@),
    {
        if str_eq(s, "גרם") || str_eq(s, "גר") {
            Unit::Gram
        } else if str_eq(s, "קל") || str_eq(s, "קלוריות") || str_eq(s, "קק\"ל") {
            Unit::Kcal
        } else if str_eq(s, "מג") || str_eq(s, "מגn") {
            Unit::Milligram
        } else if str_eq(s, "מקג") {
            Unit::Microgram
        } else if str_eq(s, "%") {
            Unit::Percent
        } else {
            Unit::Undefined(s.to_owned())
        }
    }
}

/// One nutrition-table row.
#[derive(Debug)]
pub struct NutritionalValue {
    pub number: String,
    pub unit: Unit,
    pub nutrition_type: NutritionType,
    pub less_than: bool,
}

pub ghost struct NutritionalValueV {
    pub number: Seq<char>,
    pub unit: UnitV,
    pub nutrition_type: NutritionTypeV,
    pub less_than: bool,
}

impl View for NutritionalValue {
    type V = NutritionalValueV;

    open spec fn view(&self) -> NutritionalValueV {
        NutritionalValueV {
            number: self.number@,
            unit: self.unit@,
            nutrition_type: self.nutrition_type@,
            less_than: self.less_than,
        }
    }
}

/// The unit text after shedding the artefacts OCR and scraping leave on it.
pub open spec fn spec_unit_alias(unit: Seq<char>) -> Seq<char> {
    if unit == "קלוריותn"@ {
        "קלוריות"@
    } else if unit == "מגn"@ {
        "מג"@
    } else if unit == "גרםn"@ {
        "גרם"@
    } else if ends_with(unit, "nnn"@) {
        unit.take(unit.len() - 3)
    } else {
        unit
    }
}

/// The type text with a trailing ` (unit)` echo removed.
pub open spec fn spec_type_text(ntype: Seq<char>, unit: Seq<char>) -> Seq<char> {
    let suffix = " ("@ + unit + ")"@;
    if ends_with(ntype, suffix) {
        ntype.take(ntype.len() - suffix.len())
    } else {
        ntype
    }
}

/// What `NutritionalValue::new` yields, for every input.
pub open spec fn spec_new_value(
    number: Seq<char>,
    unit0: Seq<char>,
    ntype0: Seq<char>,
) -> Option<NutritionalValueV> {
    let unit = spec_unit_alias(unit0);
    let ntype = spec_type_text(ntype0, unit);
    if unit.len() == 0 && ntype == "כפיות סוכר"@ {
        Some(
            NutritionalValueV {
                number: number,
                unit: UnitV::Teaspoon,
                nutrition_type: NutritionTypeV::Sugar,
                less_than: false,
            },
        )
    } else if number.len() == 0 || unit.len() == 0 || ntype.len() == 0 {
        None
    } else {
        Some(
            NutritionalValueV {
                number: number,
                unit: spec_unit(unit),
                nutrition_type: spec_nutrition_type(ntype),
                less_than: false,
            },
        )
    }
}

pub open spec fn opt_value_view(r: Option<NutritionalValue>) -> Option<NutritionalValueV> {
    match r {
        Some(v) => Some(v@),
        None => None,
    }
}

impl NutritionalValue {
    /// Builds one row from its three scraped texts: the number, the unit and
    /// the nutrient name. Empty parts — after shedding scraping artefacts —
    /// yield nothing, except the sugar-teaspoons row, which has no unit of
    /// its own.
    pub fn new(number: String, unit: String, nutrition_type: String) -> (r: Option<
        NutritionalValue,
    >)
        ensures
            opt_value_view(r) == spec_new_value(number@, unit@, nutrition_type@),
    {
        let ghost u0 = unit@;
        let ghost t0 = nutrition_type@;
        let unit_fixed: String = if str_eq(unit.as_str(), "קלוריותn") {
            "קלוריות".to_owned()
        } else if str_eq(unit.as_str(), "מגn") {
            "מג".to_owned()
        } else if str_eq(unit.as_str(), "גרםn") {
            "גרם".to_owned()
        } else if str_ends_with(unit.as_str(), "nnn") {
            proof {
                reveal_strlit("nnn");
            }
            let n = unit.as_str().unicode_len();
            let trimmed = unit.as_str().substring_char(0, n - 3).to_owned();
            proof {
                assert(trimmed@ =~= u0.take(u0.len() - 3));
            }
            trimmed
        } else {
            unit
        };
        proof {
            assert(unit_fixed@ == spec_unit_alias(u0));
        }
        let suffix = str_concat(str_concat(" (", unit_fixed.as_str()).as_str(), ")");
        proof {
            assert(suffix@ =~= " ("@ + unit_fixed@ + ")"@);
        }
        let ntype_fixed: String = if str_ends_with(nutrition_type.as_str(), suffix.as_str()) {
            let n = nutrition_type.as_str().unicode_len();
            let m = suffix.as_str().unicode_len();
            let trimmed = nutrition_type.as_str().substring_char(0, n - m).to_owned();
            proof {
                assert(trimmed@ =~= t0.take(t0.len() - suffix@.len()));
            }
            trimmed
        } else {
            nutrition_type
        };
        proof {
            assert(ntype_fixed@ == spec_type_text(t0, unit_fixed@));
        }
        if unit_fixed.as_str().unicode_len() == 0 && str_eq(ntype_fixed.as_str(), "כפיות סוכר") {
            return Some(
                NutritionalValue {
                    number: number,
                    unit: Unit::Teaspoon,
                    nutrition_type: NutritionType::Sugar,
                    less_than: false,
                },
            );
        }
        if number.as_str().unicode_len() == 0 || unit_fixed.as_str().unicode_len() == 0
            || ntype_fixed.as_str().unicode_len() == 0 {
            return None;
        }
        Some(
            NutritionalValue {
                number: number,
                unit: Unit::from_str(unit_fixed.as_str()),
                nutrition_type: NutritionType::from_str(ntype_fixed.as_str()),
                less_than: false,
            },
        )
    }

    /// As `new`, with the row's less-than marker attached.
    pub fn create(number: String, unit: String, nutrition_type: String, less_than: bool) -> (r:
        Option<NutritionalValue>)
        ensures
            match spec_new_value(number@, unit@, nutrition_type@) {
                Some(v) => opt_value_view(r) == Some(
                    NutritionalValueV { less_than: less_than, ..v },
                ),
                None => r is None,
            },
    {
        match NutritionalValue::new(number, unit, nutrition_type) {
            Some(n) => Some(NutritionalValue { less_than, ..n }),
            None => None,
        }
    }

    /// The row as three strings: number, unit name, nutrient name.
    pub fn to_tuple(&self) -> (r: (String, String, String))
        ensures
            r.0@ == self@.number,
            r.1@ == spec_unit_name(self@.unit),
            r.2@ == spec_type_name(self@.nutrition_type),
    {
        (self.number.clone(), self.unit.str(), self.nutrition_type.str())
    }
}

/// A product's whole nutrition table, with its serving size.
#[derive(Debug)]
pub struct NutritionalValues {
    pub size: Option<String>,
    pub values: Vec<NutritionalValue>,
}

} // verus!
