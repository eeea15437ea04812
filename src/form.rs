use vstd::prelude::*;
use vstd::string::*;

verus! {

/// Text of the subscription form before the form's target URL.
pub open spec fn form_head() -> Seq<char> {
    "\n    <html>\n        <head>\n            <title>Subscribe to our newsletter</title>\n        </head>\n        <body>\n            <form action=\""@
}

/// Text of the subscription form after the form's target URL.
pub open spec fn form_tail() -> Seq<char> {
    "\" method=\"post\">\n                <label for=\"email\">Email:</label>\n                <input required type=\"email\" id=\"email\" name=\"email\">\n                <input type=\"submit\" value=\"Submit\">\n            </form>\n        </body>\n    </html>\n    "@
}

/// The HTML page of the subscription form, posting to `target_url`.
pub fn create_form(target_url: &str) -> (r: String)
    ensures
        r@ == form_head() + target_url@ + form_tail(),
{
    let mut page = String::from_str("\n    <html>\n        <head>\n            <title>Subscribe to our newsletter</title>\n        </head>\n        <body>\n            <form action=\"");
    page.append(target_url);
    page.append("\" method=\"post\">\n                <label for=\"email\">Email:</label>\n                <input required type=\"email\" id=\"email\" name=\"email\">\n                <input type=\"submit\" value=\"Submit\">\n            </form>\n        </body>\n    </html>\n    ");
    page
}

} // verus!
