use vstd::prelude::*;

verus! {

// The trusted boundary to the indicatif crate, which renders the progress
// indicators.  Nothing is promised of any call here: rendering is
// cosmetic, and the verified position accounting lives in the progress
// module.

#[verifier::external_type_specification]
#[verifier::external_body]
pub struct ExIndicatifProgressBar(indicatif::ProgressBar);

#[verifier::external_type_specification]
#[verifier::external_body]
pub struct ExMultiProgress(indicatif::MultiProgress);

/// Relies on indicatif::ProgressBar::new: builds a bar whose declared
/// length is `total`, drawing on its own to the error stream.
#[verifier::external_body]
pub(crate) fn bar_new(total: u64) -> indicatif::ProgressBar {
    indicatif::ProgressBar::new(total)
}

/// Relies on indicatif::MultiProgress::add: moves the bar onto the shared
/// display surface, where the indicators render as stacked lines.
#[verifier::external_body]
pub(crate) fn multi_add(
    multi: &indicatif::MultiProgress,
    bar: indicatif::ProgressBar,
) -> indicatif::ProgressBar {
    multi.add(bar)
}

/// Relies on indicatif::ProgressBar::set_style (with ProgressStyle's
/// default_bar, template and progress_chars): purely cosmetic; the bar
/// shows elapsed time, a bar, bytes, rate and ETA.  The template literal
/// is fixed and accepted, so `template` returns no error.
#[verifier::external_body]
pub(crate) fn bar_set_style(bar: &indicatif::ProgressBar) {
    bar.set_style(
        indicatif::ProgressStyle::default_bar()
            .template(
                "{msg}\n{spinner:.green} [{elapsed_precise}] [{wide_bar:.cyan/blue}] {bytes}/{total_bytes} ({bytes_per_sec}, {eta})",
            )
            .unwrap()
            .progress_chars("#>-"),
    );
}

/// Relies on indicatif::ProgressBar::set_message: cosmetic label only.
#[verifier::external_body]
pub(crate) fn bar_set_message(bar: &indicatif::ProgressBar, msg: String) {
    bar.set_message(msg);
}

/// Relies on indicatif::ProgressBar::set_position: renders the position;
/// nothing is read back from it.
#[verifier::external_body]
pub(crate) fn bar_set_position(bar: &indicatif::ProgressBar, pos: u64) {
    bar.set_position(pos);
}

/// Relies on indicatif::ProgressBar::finish_with_message: the bar's one
/// terminal call; the indicator stops rendering as live.
#[verifier::external_body]
pub(crate) fn bar_finish_with_message(bar: &indicatif::ProgressBar, msg: String) {
    bar.finish_with_message(msg);
}

} // verus!
