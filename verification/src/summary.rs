//! The summary formatter: turns a fully specified swap request and the
//! chosen quote into a deterministic confirmation text, and wraps it in a
//! mock QR frame. The transaction identifier is a simple length-sum hash of
//! the five input strings, rendered in hexadecimal: a placeholder, not
//! cryptography.

use crate::error::SwapError;
use crate::fixed::{fixed_chars, format_fixed, hex_chars, push_hex};
use vstd::prelude::*;

verus! {

/// The length-sum hash over the five summary inputs.
pub open spec fn spec_tx_sum(
    source: Seq<char>,
    destination: Seq<char>,
    amount: Seq<char>,
    address: Seq<char>,
    provider: Seq<char>,
) -> int {
    source.len() + destination.len() + amount.len() + address.len() + provider.len() as int
}

/// The confirmation text: a transaction identifier line, the swap line, and
/// the destination line.
pub open spec fn summary_chars(
    source: Seq<char>,
    destination: Seq<char>,
    amount: Seq<char>,
    address: Seq<char>,
    provider: Seq<char>,
    quote_amount: int,
) -> Seq<char> {
    "TX-"@ + hex_chars(spec_tx_sum(source, destination, amount, address, provider)) + "\n"@
        + amount + " "@ + source + " -> "@ + fixed_chars(quote_amount) + " "@ + destination
        + " via "@ + provider + "\nTo: "@ + address
}

/// Whether all four request fields are present (non-empty).
pub open spec fn spec_request_complete(
    source: Seq<char>,
    destination: Seq<char>,
    amount: Seq<char>,
    address: Seq<char>,
) -> bool {
    source.len() > 0 && destination.len() > 0 && amount.len() > 0 && address.len() > 0
}

/// Formats the confirmation text for a finalized swap request and the chosen
/// provider's quote. Fails with `IncompleteRequest` exactly when one of the
/// source symbol, destination symbol, amount or address is missing (empty);
/// otherwise returns exactly the text of `summary_chars`.
pub fn format_summary(
    source: &str,
    destination: &str,
    amount: &str,
    address: &str,
    provider: &str,
    quote_amount: u128,
) -> (r: Result<String, SwapError>)
    ensures
        match r {
            Ok(s) => spec_request_complete(source@, destination@, amount@, address@) && s@
                == summary_chars(
                source@,
                destination@,
                amount@,
                address@,
                provider@,
                quote_amount as int,
            ),
            Err(e) => !spec_request_complete(source@, destination@, amount@, address@) && e
                == SwapError::IncompleteRequest,
        },
{
    if source.unicode_len() == 0 || destination.unicode_len() == 0 || amount.unicode_len() == 0
        || address.unicode_len() == 0 {
        return Err(SwapError::IncompleteRequest);
    }
    let sum: u128 = source.unicode_len() as u128 + destination.unicode_len() as u128
        + amount.unicode_len() as u128 + address.unicode_len() as u128
        + provider.unicode_len() as u128;
    let mut out = String::from_str("TX-");
    push_hex(&mut out, sum);
    out.append("\n");
    out.append(amount);
    out.append(" ");
    out.append(source);
    out.append(" -> ");
    let fq = format_fixed(quote_amount);
    out.append(fq.as_str());
    out.append(" ");
    out.append(destination);
    out.append(" via ");
    out.append(provider);
    out.append("\nTo: ");
    out.append(address);
    proof {
        assert(out@ =~= summary_chars(
            source@,
            destination@,
            amount@,
            address@,
            provider@,
            quote_amount as int,
        ));
    }
    Ok(out)
}

/// The mock QR frame placed above a payload.
pub open spec fn mock_qr_chars(data: Seq<char>) -> Seq<char> {
    "+------------------+\n"@ + "| ## ###  ## # ### |\n"@ + "| #  # ## #### #   |\n"@
        + "| ## #  ###  ## ## |\n"@ + "| #   ## #  ## #   |\n"@ + "| ### #  ## #  ### |\n"@
        + "+------------------+\n"@ + data
}

/// Renders the deterministic mock QR block around a payload. This stands in
/// whenever no real renderer is available and always succeeds.
pub fn generate_mock_qr_code(data: &str) -> (r: String)
    ensures
        r@ == mock_qr_chars(data@),
{
    let mut out = String::from_str("+------------------+\n");
    out.append("| ## ###  ## # ### |\n");
    out.append("| #  # ## #### #   |\n");
    out.append("| ## #  ###  ## ## |\n");
    out.append("| #   ## #  ## #   |\n");
    out.append("| ### #  ## #  ### |\n");
    out.append("+------------------+\n");
    out.append(data);
    proof {
        assert(out@ =~= mock_qr_chars(data@));
    }
    out
}

/// The full summary/QR text: the mock frame over the confirmation text.
pub open spec fn qr_code_chars(
    source: Seq<char>,
    destination: Seq<char>,
    amount: Seq<char>,
    address: Seq<char>,
    provider: Seq<char>,
    quote_amount: int,
) -> Seq<char> {
    mock_qr_chars(summary_chars(source, destination, amount, address, provider, quote_amount))
}

/// Builds the summary/QR text for a finalized swap request: the confirmation
/// text of `format_summary` under the mock QR frame. Fails with
/// `IncompleteRequest` exactly when a request field is missing (empty).
pub fn generate_qr_code(
    source: &str,
    destination: &str,
    amount: &str,
    address: &str,
    provider: &str,
    quote_amount: u128,
) -> (r: Result<String, SwapError>)
    ensures
        match r {
            Ok(s) => spec_request_complete(source@, destination@, amount@, address@) && s@
                == qr_code_chars(
                source@,
                destination@,
                amount@,
                address@,
                provider@,
                quote_amount as int,
            ),
            Err(e) => !spec_request_complete(source@, destination@, amount@, address@) && e
                == SwapError::IncompleteRequest,
        },
{
    let body = match format_summary(source, destination, amount, address, provider, quote_amount) {
        Err(e) => {
            return Err(e);
        },
        Ok(b) => b,
    };
    Ok(generate_mock_qr_code(body.as_str()))
}

} // verus!
