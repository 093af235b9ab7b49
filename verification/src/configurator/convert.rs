//! The session settings a draft describes: the part of turning a draft into
//! a configuration that holds no floating-point setting. It runs last, so its
//! errors follow those of the other fields.
use vstd::prelude::*;

use crate::config::types::SessionConfig;
use crate::configurator::draft::ConfigDraft;
use crate::configurator::error::FormError;
use crate::configurator::fields::{compression_of, storage_mode_of};
use crate::configurator::parse::{parse_u64_field, parse_usize_field};
use crate::text::{int_error_message, parse_unsigned_spec, trim_seq};

verus! {

/// The error, as field name and message, of reading `value` into a field of
/// largest value `max`: none when it reads.
pub open spec fn field_error(field: Seq<char>, value: Seq<char>, max: nat) -> Seq<(Seq<char>, Seq<char>)> {
    match parse_unsigned_spec(trim_seq(value), max) {
        Ok(_) => Seq::empty(),
        Err(k) => seq![(field, int_error_message(k))],
    }
}

/// The number read from `value` into a field of largest value `max`, or
/// `keep` when it does not read.
pub open spec fn field_value(value: Seq<char>, max: nat, keep: nat) -> nat {
    match parse_unsigned_spec(trim_seq(value), max) {
        Ok(v) => v,
        Err(_) => keep,
    }
}

/// The errors of the session fields, in the order they are read.
pub open spec fn session_errors(d: ConfigDraft) -> Seq<(Seq<char>, Seq<char>)> {
    field_error("session.max_shapes_per_frame"@, d.session_max_shapes_per_frame@, usize::MAX as nat)
        + field_error("session.max_file_size_mb"@, d.session_max_file_size_mb@, u64::MAX as nat)
        + field_error("session.auto_compress_threshold_kb"@, d.session_auto_compress_threshold_kb@, u64::MAX as nat)
        + field_error("session.backup_retention"@, d.session_backup_retention@, usize::MAX as nat)
}

/// The errors as field names and messages.
pub open spec fn error_pairs(errors: Seq<FormError>) -> Seq<(Seq<char>, Seq<char>)> {
    errors.map_values(|e: FormError| (e.field@, e.message@))
}

/// One field read: `after` is `before` with the field's error, if any.
proof fn lemma_field_step(
    before: Seq<FormError>,
    after: Seq<FormError>,
    field: Seq<char>,
    value: Seq<char>,
    max: nat,
    r: Option<nat>,
)
    requires
        crate::configurator::parse::field_parse_ok(before, after, field, value, max, r),
    ensures
        error_pairs(after) == error_pairs(before) + field_error(field, value, max),
        after.take(before.len() as int) == before,
        r == match parse_unsigned_spec(trim_seq(value), max) {
            Ok(v) => Some(v),
            Err(_) => None::<nat>,
        },
{
    match parse_unsigned_spec(trim_seq(value), max) {
        Ok(_) => {
            assert(error_pairs(before) + Seq::<(Seq<char>, Seq<char>)>::empty() =~= error_pairs(before));
            assert(after.take(before.len() as int) =~= before);
        },
        Err(k) => {
            assert(after =~= before.push(after.last()));
            assert(error_pairs(after) =~= error_pairs(before) + seq![(field, int_error_message(k))]);
        },
    }
}

impl ConfigDraft {
    /// Writes the draft's session settings into `session`, reading the
    /// numbers from their trimmed texts. A number that does not read keeps
    /// the value `session` had and adds an error naming the field, in field
    /// order: shapes per frame, file size, compression threshold, backups.
    pub fn apply_session(&self, session: &mut SessionConfig, errors: &mut Vec<FormError>)
        ensures
            error_pairs(final(errors)@) == error_pairs(old(errors)@) + session_errors(*self),
            final(errors)@.take(old(errors)@.len() as int) == old(errors)@,
            final(session).persist_transparent == self.session_persist_transparent,
            final(session).persist_whiteboard == self.session_persist_whiteboard,
            final(session).persist_blackboard == self.session_persist_blackboard,
            final(session).restore_tool_state == self.session_restore_tool_state,
            final(session).per_output == self.session_per_output,
            final(session).storage == storage_mode_of(self.session_storage_mode),
            final(session).compress == compression_of(self.session_compression),
            match final(session).custom_directory {
                Some(dir) => dir@ == trim_seq(self.session_custom_directory@) && dir@.len() > 0,
                None => trim_seq(self.session_custom_directory@).len() == 0,
            },
            final(session).max_shapes_per_frame == field_value(
                self.session_max_shapes_per_frame@,
                usize::MAX as nat,
                old(session).max_shapes_per_frame as nat,
            ),
            final(session).max_file_size_mb == field_value(
                self.session_max_file_size_mb@,
                u64::MAX as nat,
                old(session).max_file_size_mb as nat,
            ),
            final(session).auto_compress_threshold_kb == field_value(
                self.session_auto_compress_threshold_kb@,
                u64::MAX as nat,
                old(session).auto_compress_threshold_kb as nat,
            ),
            final(session).backup_retention == field_value(
                self.session_backup_retention@,
                usize::MAX as nat,
                old(session).backup_retention as nat,
            ),
    {
        session.persist_transparent = self.session_persist_transparent;
        session.persist_whiteboard = self.session_persist_whiteboard;
        session.persist_blackboard = self.session_persist_blackboard;
        session.restore_tool_state = self.session_restore_tool_state;
        session.per_output = self.session_per_output;
        session.storage = self.session_storage_mode.to_mode();
        session.custom_directory = self.custom_directory();
        let ghost e0 = errors@;
        let a = parse_usize_field(self.session_max_shapes_per_frame.as_str(), "session.max_shapes_per_frame", errors);
        let ghost e1 = errors@;
        proof {
            lemma_field_step(e0, e1, "session.max_shapes_per_frame"@, self.session_max_shapes_per_frame@, usize::MAX as nat, match a {
                Some(v) => Some(v as nat),
                None => None,
            });
        }
        if let Some(v) = a {
            session.max_shapes_per_frame = v;
        }
        let b = parse_u64_field(self.session_max_file_size_mb.as_str(), "session.max_file_size_mb", errors);
        let ghost e2 = errors@;
        proof {
            lemma_field_step(e1, e2, "session.max_file_size_mb"@, self.session_max_file_size_mb@, u64::MAX as nat, match b {
                Some(v) => Some(v as nat),
                None => None,
            });
        }
        if let Some(v) = b {
            session.max_file_size_mb = v;
        }
        session.compress = self.session_compression.to_compression();
        let c = parse_u64_field(
            self.session_auto_compress_threshold_kb.as_str(),
            "session.auto_compress_threshold_kb",
            errors,
        );
        let ghost e3 = errors@;
        proof {
            lemma_field_step(e2, e3, "session.auto_compress_threshold_kb"@, self.session_auto_compress_threshold_kb@, u64::MAX as nat, match c {
                Some(v) => Some(v as nat),
                None => None,
            });
        }
        if let Some(v) = c {
            session.auto_compress_threshold_kb = v;
        }
        let d = parse_usize_field(self.session_backup_retention.as_str(), "session.backup_retention", errors);
        let ghost e4 = errors@;
        proof {
            lemma_field_step(e3, e4, "session.backup_retention"@, self.session_backup_retention@, usize::MAX as nat, match d {
                Some(v) => Some(v as nat),
                None => None,
            });
        }
        if let Some(v) = d {
            session.backup_retention = v;
        }
        proof {
            assert(e4.take(e0.len() as int) =~= e0) by {
                assert(e4.take(e3.len() as int) == e3);
                assert(e3.take(e2.len() as int) == e2);
                assert(e2.take(e1.len() as int) == e1);
                assert(e1.take(e0.len() as int) == e0);
            }
            assert(error_pairs(e4) =~= error_pairs(e0) + session_errors(*self));
        }
    }
}

} // verus!
