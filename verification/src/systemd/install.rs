//! The [Install] section of a systemd unit file.

use crate::systemd::render::list_text;
use crate::systemd::render::opt_text;
use crate::systemd::render::opt_texts;
use crate::systemd::render::scalar_text;
use crate::systemd::render::write_list;
use crate::systemd::render::write_scalar;
use crate::text::char_is_alphanumeric;
use crate::text::unicode_alphanumeric;
use vstd::prelude::*;
use vstd::string::StrSliceExecFns;
use vstd::string::StringExecFns;

verus! {

/// Represents the [Install] section of a systemd unit file.
///
/// This section carries installation information for the unit and is used
/// by systemctl enable/disable commands during installation of a unit.
#[derive(Debug, Clone)]
pub struct Install {
    /// Additional names this unit shall be installed under.
    pub alias: Option<Vec<String>>,
    /// Units that gain a Wants= dependency on this unit when it is enabled.
    pub wanted_by: Option<Vec<String>>,
    /// Units that gain a Requires= dependency on this unit when it is enabled.
    pub required_by: Option<Vec<String>>,
    /// Units that gain an Upholds= dependency on this unit when it is enabled.
    pub upheld_by: Option<Vec<String>>,
    /// Additional units to install/deinstall when this unit is installed/deinstalled.
    pub also: Option<Vec<String>>,
    /// In template unit files, the instance to enable if the template is
    /// enabled without an explicitly set instance.
    pub default_instance: Option<String>,
}

impl Install {
    /// The section with every field absent.
    pub open spec fn unset() -> Install {
        Install {
            alias: None,
            wanted_by: None,
            required_by: None,
            upheld_by: None,
            also: None,
            default_instance: None,
        }
    }

    /// The full text of the rendered section, header line included.
    #[verifier::opaque]
    pub open spec fn text_spec(self) -> Seq<char> {
        "[Install]\n"@ + list_text("Alias"@, opt_texts(self.alias)) + list_text(
            "WantedBy"@,
            opt_texts(self.wanted_by),
        ) + list_text("RequiredBy"@, opt_texts(self.required_by)) + list_text(
            "UpheldBy"@,
            opt_texts(self.upheld_by),
        ) + list_text("Also"@, opt_texts(self.also)) + scalar_text(
            "DefaultInstance"@,
            opt_text(self.default_instance),
        )
    }

    /// A character allowed in an instance identifier.
    pub open spec fn instance_char_ok(c: char) -> bool {
        unicode_alphanumeric(c) || c == '_' || c == '-'
    }

    /// The message reported for an instance identifier with a bad character.
    pub open spec fn instance_error_text(s: Seq<char>) -> Seq<char> {
        "Invalid DefaultInstance '"@ + s
            + "': must contain only alphanumeric characters, underscores, and hyphens"@
    }

    /// The message of a validation failure names the offending field and,
    /// where one exists, the offending value.
    pub open spec fn explains_failure(self, m: Seq<char>) -> bool {
        match self.default_instance {
            None => false,
            Some(s) => {
                ||| (s@.len() == 0 && m == "Invalid DefaultInstance: cannot be empty"@)
                ||| (s@.len() > 0 && (exists|i: int|
                    0 <= i < s@.len() && !Install::instance_char_ok(s@[i])) && m
                    == Install::instance_error_text(s@))
            },
        }
    }

    /// Every field value meets its documented constraint.
    pub open spec fn valid(self) -> bool {
        match self.default_instance {
            None => true,
            Some(s) => s@.len() > 0 && forall|i: int|
                0 <= i < s@.len() ==> Install::instance_char_ok(#[trigger] s@[i]),
        }
    }

    /// Render the section into its text block, in the fixed field order.
    pub fn render(&self) -> (r: String)
        ensures
            r@ == self.text_spec(),
    {
        proof {
            reveal(Install::text_spec);
        }
        let mut buf = String::from_str("[Install]\n");
        write_list(&mut buf, "Alias", &self.alias);
        write_list(&mut buf, "WantedBy", &self.wanted_by);
        write_list(&mut buf, "RequiredBy", &self.required_by);
        write_list(&mut buf, "UpheldBy", &self.upheld_by);
        write_list(&mut buf, "Also", &self.also);
        write_scalar(&mut buf, "DefaultInstance", &self.default_instance);
        buf
    }

    /// Validate the install configuration according to systemd specifications.
    pub fn validate(&self) -> (r: Result<(), String>)
        ensures
            r is Ok <==> self.valid(),
            (r matches Err(m) ==> self.explains_failure(m@)),
    {
        match &self.default_instance {
            None => Ok(()),
            Some(instance) => {
                let len: usize = instance.as_str().unicode_len();
                if len == 0 {
                    return Err(String::from_str("Invalid DefaultInstance: cannot be empty"));
                }
                let mut i: usize = 0;
                while i < len
                    invariant
                        0 <= i <= len,
                        len == instance@.len(),
                        self.default_instance == Some(*instance),
                        forall|k: int| 0 <= k < i ==> Install::instance_char_ok(instance@[k]),
                    decreases len - i,
                {
                    let c = instance.as_str().get_char(i);
                    if !(char_is_alphanumeric(c) || c == '_' || c == '-') {
                        proof {
                            assert(self.default_instance == Some(*instance));
                            assert(!Install::instance_char_ok(instance@[i as int]));
                        }
                        let mut msg = String::from_str("Invalid DefaultInstance '");
                        msg.append(instance.as_str());
                        msg.append(
                            "': must contain only alphanumeric characters, underscores, and hyphens",
                        );
                        return Err(msg);
                    }
                    i += 1;
                }
                Ok(())
            },
        }
    }

    pub fn alias(self, value: Vec<String>) -> (r: Self)
        ensures
            r == (Install { alias: Some(value), ..self }),
    {
        Install { alias: Some(value), ..self }
    }

    pub fn wanted_by(self, value: Vec<String>) -> (r: Self)
        ensures
            r == (Install { wanted_by: Some(value), ..self }),
    {
        Install { wanted_by: Some(value), ..self }
    }

    pub fn required_by(self, value: Vec<String>) -> (r: Self)
        ensures
            r == (Install { required_by: Some(value), ..self }),
    {
        Install { required_by: Some(value), ..self }
    }

    pub fn upheld_by(self, value: Vec<String>) -> (r: Self)
        ensures
            r == (Install { upheld_by: Some(value), ..self }),
    {
        Install { upheld_by: Some(value), ..self }
    }

    pub fn also(self, value: Vec<String>) -> (r: Self)
        ensures
            r == (Install { also: Some(value), ..self }),
    {
        Install { also: Some(value), ..self }
    }

    pub fn default_instance(self, value: String) -> (r: Self)
        ensures
            r == (Install { default_instance: Some(value), ..self }),
    {
        Install { default_instance: Some(value), ..self }
    }
}

impl Default for Install {
    /// The all-absent section.
    fn default() -> (r: Self)
        ensures
            r == Install::unset(),
    {
        Install {
            alias: None,
            wanted_by: None,
            required_by: None,
            upheld_by: None,
            also: None,
            default_instance: None,
        }
    }
}

/// A default-constructed [Install] section renders to exactly its one
/// header line: every field is unset, so no field line is emitted.
pub proof fn lemma_unset_install_renders_header()
    ensures
        Install::unset().text_spec() == "[Install]\n"@,
{
    reveal(Install::text_spec);
    assert(Install::unset().text_spec() =~= "[Install]\n"@);
}

} // verus!
