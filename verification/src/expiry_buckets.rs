//! Expiry bucket labels for days-to-expiry, used by the Yield and Scenarios views.
use vstd::prelude::*;

verus! {

/// Label of the bucket that holds `d` days to expiry.
pub open spec fn spec_bucket_label(d: int) -> Seq<char> {
    if d <= 0 {
        "expired"@
    } else if d <= 7 {
        "5 days"@
    } else if d <= 25 {
        "about 1 month"@
    } else if d <= 45 {
        "2 months"@
    } else if d <= 75 {
        "3 months"@
    } else if d <= 105 {
        "4 months"@
    } else if d <= 135 {
        "5 months"@
    } else if d <= 165 {
        "6 months"@
    } else if d <= 200 {
        "7 months"@
    } else if d <= 235 {
        "8 months"@
    } else if d <= 270 {
        "9 months"@
    } else if d <= 320 {
        "10 months"@
    } else if d <= 350 {
        "11 months"@
    } else if d <= 380 {
        "about 1 year"@
    } else if d <= 730 {
        "over 1 year"@
    } else if d <= 1095 {
        "almost 2 years"@
    } else if d <= 1460 {
        "almost 3 years"@
    } else if d <= 1825 {
        "almost 4 years"@
    } else if d <= 2190 {
        "almost 5 years"@
    } else {
        "almost 6 years"@
    }
}

/// Returns a short label for the given days-to-expiry (e.g. "5 days", "about 1 month").
pub fn bucket_label(days_to_expiry: i32) -> (r: &'static str)
    ensures
        r@ == spec_bucket_label(days_to_expiry as int),
{
    let d = days_to_expiry;
    if d <= 0 {
        "expired"
    } else if d <= 7 {
        "5 days"
    } else if d <= 25 {
        "about 1 month"
    } else if d <= 45 {
        "2 months"
    } else if d <= 75 {
        "3 months"
    } else if d <= 105 {
        "4 months"
    } else if d <= 135 {
        "5 months"
    } else if d <= 165 {
        "6 months"
    } else if d <= 200 {
        "7 months"
    } else if d <= 235 {
        "8 months"
    } else if d <= 270 {
        "9 months"
    } else if d <= 320 {
        "10 months"
    } else if d <= 350 {
        "11 months"
    } else if d <= 380 {
        "about 1 year"
    } else if d <= 730 {
        "over 1 year"
    } else if d <= 1095 {
        "almost 2 years"
    } else if d <= 1460 {
        "almost 3 years"
    } else if d <= 1825 {
        "almost 4 years"
    } else if d <= 2190 {
        "almost 5 years"
    } else {
        "almost 6 years"
    }
}

/// Treasury bill tenor closest to a days-to-expiry value.
pub open spec fn spec_tbill_tenor(dte: int) -> Seq<char> {
    if dte <= 45 {
        "1M"@
    } else if dte <= 120 {
        "3M"@
    } else if dte <= 270 {
        "6M"@
    } else {
        "1Y"@
    }
}

/// T-bill tenor closest to a DTE (short end of the Treasury curve).
pub fn tbill_tenor(dte: i32) -> (r: &'static str)
    ensures
        r@ == spec_tbill_tenor(dte as int),
{
    if dte <= 45 {
        "1M"
    } else if dte <= 120 {
        "3M"
    } else if dte <= 270 {
        "6M"
    } else {
        "1Y"
    }
}

/// Every day count falls in one bucket, fixed by its range: none or fewer days are
/// "expired", up to a week "5 days", and then each range of roughly a month, a year or
/// more its own label.
pub proof fn law_bucket_labels_by_range(d: int)
    ensures
        d <= 0 ==> spec_bucket_label(d) == "expired"@,
        1 <= d <= 7 ==> spec_bucket_label(d) == "5 days"@,
        8 <= d <= 25 ==> spec_bucket_label(d) == "about 1 month"@,
        26 <= d <= 45 ==> spec_bucket_label(d) == "2 months"@,
        46 <= d <= 75 ==> spec_bucket_label(d) == "3 months"@,
        76 <= d <= 105 ==> spec_bucket_label(d) == "4 months"@,
        106 <= d <= 135 ==> spec_bucket_label(d) == "5 months"@,
        136 <= d <= 165 ==> spec_bucket_label(d) == "6 months"@,
        166 <= d <= 200 ==> spec_bucket_label(d) == "7 months"@,
        201 <= d <= 235 ==> spec_bucket_label(d) == "8 months"@,
        236 <= d <= 270 ==> spec_bucket_label(d) == "9 months"@,
        271 <= d <= 320 ==> spec_bucket_label(d) == "10 months"@,
        321 <= d <= 350 ==> spec_bucket_label(d) == "11 months"@,
        351 <= d <= 380 ==> spec_bucket_label(d) == "about 1 year"@,
        381 <= d <= 730 ==> spec_bucket_label(d) == "over 1 year"@,
        731 <= d <= 1095 ==> spec_bucket_label(d) == "almost 2 years"@,
        1096 <= d <= 1460 ==> spec_bucket_label(d) == "almost 3 years"@,
        1461 <= d <= 1825 ==> spec_bucket_label(d) == "almost 4 years"@,
        1826 <= d <= 2190 ==> spec_bucket_label(d) == "almost 5 years"@,
        d > 2190 ==> spec_bucket_label(d) == "almost 6 years"@,
{
}

} // verus!
