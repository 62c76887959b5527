//! Per-group message texts: templates with placeholders, and the functions
//! that fill them in. Pure data lookups around the core; every substitution
//! is pinned to the template's exact text.

use vstd::prelude::*;

use crate::captcha::question_display;
use crate::captcha::spec_question_display;
use crate::question::MathQuestion;
use crate::text::html_escape;
use crate::text::replace_all;
use crate::text::spec_html_escape;
use crate::text::spec_replace;

verus! {

/// The texts around the join challenge.
pub struct JoinCaptchaMessages {
    /// Greets a new member; `{TAGUSER}` and `{CHATNAME}` are filled in.
    pub new_user_template: String,
    /// Label of the admin-override button.
    pub admin_approve: String,
    /// Feedback for an override attempt without the capability.
    pub admin_only_error: String,
    /// Feedback for a response from an identity that is not under challenge.
    pub user_doesnt_match_error: String,
    /// Feedback for a wrong answer.
    pub wrong_answer: String,
    /// Feedback for the admin after an override.
    pub admin_approved_user: String,
    /// Feedback for a correct answer.
    pub correct_answer: String,
    /// Farewell posted in a conversation the bot does not serve.
    pub unauthorized_group: String,
}

impl JoinCaptchaMessages {
    /// The welcome message for a new member: the template with the user tag
    /// and the escaped chat name filled in, followed by the question in bold.
    /// `user_tag` arrives already rendered as an HTML link; the chat name is
    /// escaped here.
    pub fn create_welcome_msg(
        &self,
        user_tag: &str,
        chat_name: &str,
        question: &MathQuestion,
    ) -> (r: String)
        ensures
            r@ == spec_replace(
                spec_replace(self.new_user_template@, "{TAGUSER}"@, user_tag@),
                "{CHATNAME}"@,
                spec_html_escape(chat_name@),
            ) + "\n<b>"@ + spec_question_display(*question) + "</b>"@,
    {
        proof {
            reveal_strlit("{TAGUSER}");
            reveal_strlit("{CHATNAME}");
        }
        let tagged = replace_all(self.new_user_template.as_str(), "{TAGUSER}", user_tag);
        let escaped_name = html_escape(chat_name);
        let mut out = replace_all(tagged.as_str(), "{CHATNAME}", escaped_name.as_str());
        out.append("\n<b>");
        let shown = question_display(question);
        out.append(shown.as_str());
        out.append("</b>");
        out
    }
}

impl Default for JoinCaptchaMessages {
    /// The built-in texts, used where a group configures none.
    fn default() -> (d: Self)
        ensures
            d.new_user_template@
                == "Hello {TAGUSER}.\nWelcome to {CHATNAME} group.\nFor accessing group, please choose the right answer from bellow options."@,
            d.admin_approve@ == "Confirmation by admin ✅"@,
            d.admin_only_error@ == "❌ Only group admins can use this button"@,
            d.user_doesnt_match_error@ == "❌ This message isn't for you"@,
            d.wrong_answer@ == "❌ Your answer was wrong, you will be banned from the group shortly"@,
            d.admin_approved_user@ == "✅ You approved this user"@,
            d.correct_answer@ == "✅ Your answer was correct! Now you can chat in the group"@,
            d.unauthorized_group@ == "❌ This group isn't authorized. Goodbye!"@,
    {
        JoinCaptchaMessages {
            new_user_template:
                "Hello {TAGUSER}.\nWelcome to {CHATNAME} group.\nFor accessing group, please choose the right answer from bellow options.".to_owned(),
            admin_approve: "Confirmation by admin ✅".to_owned(),
            admin_only_error: "❌ Only group admins can use this button".to_owned(),
            user_doesnt_match_error: "❌ This message isn't for you".to_owned(),
            wrong_answer:
                "❌ Your answer was wrong, you will be banned from the group shortly".to_owned(),
            admin_approved_user: "✅ You approved this user".to_owned(),
            correct_answer:
                "✅ Your answer was correct! Now you can chat in the group".to_owned(),
            unauthorized_group: "❌ This group isn't authorized. Goodbye!".to_owned(),
        }
    }
}

/// The texts of the crate-lookup feature.
pub struct CratesMessages {
    /// Describes a found crate; name, version, description, downloads and
    /// update time are filled in.
    pub crate_found_msg: String,
    /// Describes a crate that resolves to a fixed documentation link.
    pub crate_link_found: String,
    /// Describes a found documentation page.
    pub doc_found: String,
    /// Label of the documentation button.
    pub crate_doc_button: String,
    /// Label of the repository button.
    pub crate_github_page: String,
    /// Reply when no crate matches.
    pub crate_not_found: String,
    /// Reply when no crate matches but a near name exists.
    pub crate_not_found_suggestion: String,
    /// Reply to a documentation query without a leading path element.
    pub invalid_query_in_doc_lookup: String,
    /// Reply when the lookup request itself failed.
    pub send_request_failed: String,
    /// Reply when the lookup response could not be read.
    pub crate_io_json_parse_error: String,
}

impl CratesMessages {
    /// The reply for a crate with a fixed documentation link.
    pub fn crate_link_found_message(&self, name: &str) -> (r: String)
        ensures
            r@ == spec_replace(self.crate_link_found@, "{NAME}"@, spec_html_escape(name@)),
    {
        proof {
            reveal_strlit("{NAME}");
        }
        let escaped = html_escape(name);
        replace_all(self.crate_link_found.as_str(), "{NAME}", escaped.as_str())
    }

    /// The reply for a found documentation page.
    pub fn doc_found_message(&self, name: &str, query: &str) -> (r: String)
        ensures
            r@ == spec_replace(
                spec_replace(self.doc_found@, "{NAME}"@, name@),
                "{QUERY}"@,
                query@,
            ),
    {
        proof {
            reveal_strlit("{NAME}");
            reveal_strlit("{QUERY}");
        }
        let named = replace_all(self.doc_found.as_str(), "{NAME}", name);
        replace_all(named.as_str(), "{QUERY}", query)
    }

    /// The reply when no crate matches: with a suggestion where one exists,
    /// without one otherwise.
    pub fn crate_not_found_message(
        &self,
        crate_name: &str,
        suggestion: Option<String>,
    ) -> (r: String)
        ensures
            r@ == match suggestion {
                Some(s) => spec_replace(
                    spec_replace(self.crate_not_found_suggestion@, "{CRATE_NAME}"@, crate_name@),
                    "{CRATE_NAME_MEAN}"@,
                    s@,
                ),
                None => spec_replace(self.crate_not_found@, "{CRATE_NAME}"@, crate_name@),
            },
    {
        proof {
            reveal_strlit("{CRATE_NAME}");
            reveal_strlit("{CRATE_NAME_MEAN}");
        }
        match suggestion {
            Some(s) => {
                let named = replace_all(
                    self.crate_not_found_suggestion.as_str(),
                    "{CRATE_NAME}",
                    crate_name,
                );
                replace_all(named.as_str(), "{CRATE_NAME_MEAN}", s.as_str())
            },
            None => replace_all(self.crate_not_found.as_str(), "{CRATE_NAME}", crate_name),
        }
    }

    /// The reply to a documentation query that holds no path element.
    pub fn invalid_query_in_doc_lookup_message(&self, query: &str) -> (r: String)
        ensures
            r@ == spec_replace(self.invalid_query_in_doc_lookup@, "{QUERY}"@, query@),
    {
        proof {
            reveal_strlit("{QUERY}");
        }
        replace_all(self.invalid_query_in_doc_lookup.as_str(), "{QUERY}", query)
    }

    /// The reply when the lookup request failed, with the error's rendering.
    pub fn send_request_failed_message(&self, error: String) -> (r: String)
        ensures
            r@ == spec_replace(self.send_request_failed@, "{DETAIL}"@, error@),
    {
        proof {
            reveal_strlit("{DETAIL}");
        }
        replace_all(self.send_request_failed.as_str(), "{DETAIL}", error.as_str())
    }

    /// The reply when the lookup response could not be read.
    pub fn crate_io_json_parse_error_message(&self, error: String) -> (r: String)
        ensures
            r@ == spec_replace(self.crate_io_json_parse_error@, "{DETAIL}"@, error@),
    {
        proof {
            reveal_strlit("{DETAIL}");
        }
        replace_all(self.crate_io_json_parse_error.as_str(), "{DETAIL}", error.as_str())
    }
}

impl Default for CratesMessages {
    /// The built-in texts, used where a group configures none.
    fn default() -> (d: Self)
        ensures
            d.crate_found_msg@
                == "<b>Crate:</b> {NAME}\n<b>Version:</b> <code>{VERSION}</code>\n<b>Description:</b> {DESCRIPTION}\n<b>Downloads:</b> <code>{DOWNLOADS}</code>\n<b>Updated at:</b> {UPDATED_AT}"@,
            d.crate_link_found@ == "<b>Crate:</b> {NAME}"@,
            d.doc_found@ == "<b>Crate:</b> {NAME}\n<b>Input query:</b> {QUERY}"@,
            d.crate_doc_button@ == "Open documentation"@,
            d.crate_github_page@ == "Open repository"@,
            d.crate_not_found@ == "❌ Crate <code>{CRATE_NAME}</code> not found"@,
            d.crate_not_found_suggestion@
                == "❌ Crate <code>{CRATE_NAME}</code> not found. Did you mean <code>{CRATE_NAME_MEAN}</code>?"@,
            d.invalid_query_in_doc_lookup@
                == "❌ Can't fine the first path element inside the query: {QUERY}"@,
            d.send_request_failed@
                == "❌ Error when sending request for fetching crate information\n<pre><code class=\"language-error\">{DETAIL}</code></pre>"@,
            d.crate_io_json_parse_error@
                == "❌ Cannot parse crates.io JSON response\n<pre><code class=\"language-error\">{DETAIL}</code></pre>"@,
    {
        CratesMessages {
            crate_found_msg:
                "<b>Crate:</b> {NAME}\n<b>Version:</b> <code>{VERSION}</code>\n<b>Description:</b> {DESCRIPTION}\n<b>Downloads:</b> <code>{DOWNLOADS}</code>\n<b>Updated at:</b> {UPDATED_AT}".to_owned(),
            crate_link_found: "<b>Crate:</b> {NAME}".to_owned(),
            doc_found: "<b>Crate:</b> {NAME}\n<b>Input query:</b> {QUERY}".to_owned(),
            crate_doc_button: "Open documentation".to_owned(),
            crate_github_page: "Open repository".to_owned(),
            crate_not_found: "❌ Crate <code>{CRATE_NAME}</code> not found".to_owned(),
            crate_not_found_suggestion:
                "❌ Crate <code>{CRATE_NAME}</code> not found. Did you mean <code>{CRATE_NAME_MEAN}</code>?".to_owned(),
            invalid_query_in_doc_lookup:
                "❌ Can't fine the first path element inside the query: {QUERY}".to_owned(),
            send_request_failed:
                "❌ Error when sending request for fetching crate information\n<pre><code class=\"language-error\">{DETAIL}</code></pre>".to_owned(),
            crate_io_json_parse_error:
                "❌ Cannot parse crates.io JSON response\n<pre><code class=\"language-error\">{DETAIL}</code></pre>".to_owned(),
        }
    }
}

/// All texts of one group, bundled.
pub struct MessagesText {
    /// Texts around the join challenge.
    pub join_captcha: JoinCaptchaMessages,
    /// Texts of the crate-lookup feature.
    pub crates: CratesMessages,
}

impl Default for MessagesText {
    /// The built-in texts.
    fn default() -> (d: Self)
    {
        MessagesText {
            join_captcha: JoinCaptchaMessages::default(),
            crates: CratesMessages::default(),
        }
    }
}

} // verus!
