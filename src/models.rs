//! Submitted jobs and sink registrations.

use vstd::prelude::*;
use crate::error::{ValidationError, ValidationFailure};
use crate::platform::{new_uuid_text, now_millis, is_uuid_v4_text};
use crate::protocol::{schema_version_spec, SCHEMA_VERSION};
use crate::text::{all_white, is_blank, same_text};

verus! {

/// Who submitted a job.
#[derive(Clone, Debug)]
pub struct SourceInfo {
    pub client: String,
    pub label: Option<String>,
    pub path: Option<String>,
}

/// Where the sink should put the text.
#[derive(Clone, Copy, Debug, PartialEq, Eq, Structural)]
pub enum Placement {
    Top,
    Bottom,
    Cursor,
}

/// Which provider session the sink should use.
#[derive(Clone, Copy, Debug, PartialEq, Eq, Structural)]
pub enum SessionDirective {
    ReuseOrCreate,
    ReuseOnly,
    StartFresh,
}

/// Where a job should land.
#[derive(Clone, Debug)]
pub struct TargetSpec {
    pub provider: Option<String>,
    pub session_directive: Option<SessionDirective>,
}

/// A job as submitted over HTTP.
#[derive(Clone, Debug)]
pub struct InsertTextRequest {
    pub schema_version: String,
    pub source: SourceInfo,
    pub text: String,
    pub placement: Option<Placement>,
    pub target: Option<TargetSpec>,
    pub metadata: serde_json::Value,
}

/// A target names a provider that is blank.
pub open spec fn provider_blank(target: Option<TargetSpec>) -> bool {
    match target {
        Some(t) => match t.provider {
            Some(p) => all_white(p@),
            None => false,
        },
        None => false,
    }
}

/// The first rule, in order, that the request breaks.
pub open spec fn first_violation(r: InsertTextRequest) -> Option<ValidationFailure> {
    if r.schema_version@ != schema_version_spec() {
        Some(ValidationFailure::InvalidSchemaVersion(r.schema_version@))
    } else if r.source.client@.len() == 0 {
        Some(ValidationFailure::MissingField("source.client"@))
    } else if all_white(r.text@) {
        Some(ValidationFailure::EmptySnippet)
    } else if provider_blank(r.target) {
        Some(ValidationFailure::MissingField("target.provider"@))
    } else {
        None
    }
}

impl InsertTextRequest {
    /// Checks the request's schema version, client, text and provider, in that order.
    pub fn validate(&self) -> (r: Result<(), ValidationError>)
        ensures
            r is Ok <==> first_violation(*self) is None,
            r matches Err(e) ==> first_violation(*self) == Some(e@),
    {
        if !same_text(self.schema_version.as_str(), SCHEMA_VERSION) {
            return Err(ValidationError::InvalidSchemaVersion { version: self.schema_version.clone() });
        }
        if self.source.client.as_str().is_empty() {
            return Err(ValidationError::MissingField { field: String::from_str("source.client") });
        }
        if is_blank(self.text.as_str()) {
            return Err(ValidationError::EmptySnippet);
        }
        match &self.target {
            Some(t) => match &t.provider {
                Some(p) => {
                    if is_blank(p.as_str()) {
                        return Err(
                            ValidationError::MissingField { field: String::from_str("target.provider") },
                        );
                    }
                },
                None => {},
            },
            None => {},
        }
        Ok(())
    }
}

/// A registered sink.
#[derive(Clone, Debug)]
pub struct SinkConnection {
    pub id: String,
    pub registered_at_ms: i64,
    pub capabilities: Vec<String>,
    pub providers: Vec<String>,
    pub version: String,
}

/// `items` holds `s`.
pub open spec fn holds_text(items: Seq<String>, s: Seq<char>) -> bool {
    exists|i: int| 0 <= i < items.len() && (#[trigger] items[i])@ == s
}

impl SinkConnection {
    /// A registration with a fresh random id, stamped with the current time.
    pub fn new(capabilities: Vec<String>, providers: Vec<String>, version: String) -> (r: Self)
        ensures
            r.capabilities == capabilities,
            r.providers == providers,
            r.version == version,
            is_uuid_v4_text(r.id@),
    {
        SinkConnection {
            id: new_uuid_text(),
            registered_at_ms: now_millis(),
            capabilities,
            providers,
            version,
        }
    }

    pub fn has_capability(&self, capability: &str) -> (r: bool)
        ensures
            r == holds_text(self.capabilities@, capability@),
    {
        let mut i: usize = 0;
        while i < self.capabilities.len()
            invariant
                i <= self.capabilities.len(),
                forall|k: int| 0 <= k < i ==> (#[trigger] self.capabilities@[k])@ != capability@,
            decreases self.capabilities.len() - i,
        {
            if same_text(self.capabilities[i].as_str(), capability) {
                return true;
            }
            i = i + 1;
        }
        false
    }
}

} // verus!
