//! Engineering coordinates: repositories, artifact locators and keys, references and edges.

use vstd::prelude::*;
use vstd::string::StringExecFns;

use crate::checks::{
    all_distinct, first_from, optional_text_problem, require_optional_text, require_text, require_text_items,
    split_words, text_items_problem, text_problem, words,
};
use crate::digest::{
    fits_frame, framed, framed_all, framed_next, framing_is_injective, is_prefixed_digest,
    prefixed_digests_have_one_form, push_framed, sha256_hex, sha256_text,
};
use crate::error::{fails_as, first, given, invalid, invalid_input, ErrorView, Result};
use crate::ids::{ContextId, Identifier, ReferenceId, RepositoryId, RevisionId};
use crate::json::{
    Json, first_members, json_string, json_string_text, literals_read_back, object, objects_read_back,
    options_read_back, push_member, push_member_text, push_object, reads_back, with_member,
};
use crate::order::{text_below, text_is_below, Ordered};
use crate::text::{characters, joined2, same_text, split_on, split_text};
use crate::value::Value;
use crate::json_laws::{members_are_written, objects_write_their_body, writes};

verus! {

/// Stable identity of one logical repository, independent of a local checkout.
#[derive(Clone, Debug, PartialEq, Eq)]
pub struct RepositoryIdentity {
    pub repository_id: RepositoryId,
    pub canonical_name: String,
}

/// The model of [`RepositoryIdentity`].
pub struct RepositoryIdentityView {
    pub repository_id: Seq<char>,
    pub canonical_name: Seq<char>,
}

impl DeepView for RepositoryIdentity {
    type V = RepositoryIdentityView;

    open spec fn deep_view(&self) -> RepositoryIdentityView {
        RepositoryIdentityView {
            repository_id: self.repository_id.deep_view(),
            canonical_name: self.canonical_name.deep_view(),
        }
    }
}

impl Value for RepositoryIdentity {
    fn copied(&self) -> (copy: Self) {
        RepositoryIdentity {
            repository_id: self.repository_id.copied(),
            canonical_name: self.canonical_name.copied(),
        }
    }

    fn same(&self, other: &Self) -> (equal: bool) {
        self.repository_id.same(&other.repository_id)
            && self.canonical_name.same(&other.canonical_name)
    }
}

impl RepositoryIdentityView {
    /// The JSON members, behind those of `body`.
    pub open spec fn json_members(self, body: Seq<char>) -> Seq<char> {
        let body = with_member(body, "repository_id"@, <RepositoryId as Json>::json(self.repository_id));
        let body = with_member(body, "canonical_name"@, <String as Json>::json(self.canonical_name));
        body
    }
}

impl RepositoryIdentity {
    fn push_members(&self, text: &mut String)
        ensures
            final(text)@ == self.deep_view().json_members(old(text)@),
    {
        push_member(text, "repository_id", &self.repository_id);
        push_member(text, "canonical_name", &self.canonical_name);
    }
}

impl Json for RepositoryIdentity {
    open spec fn json(model: RepositoryIdentityView) -> Seq<char> {
        object(model.json_members(Seq::<char>::empty()))
    }

    fn write_json(&self, out: &mut String) {
        let mut body = String::new();
        self.push_members(&mut body);
        push_object(out, body.as_str());
    }
}

impl RepositoryIdentityView {
    /// Why a repository identity is invalid, if it is.
    pub open spec fn problem(self) -> Option<ErrorView> {
        text_problem(self.canonical_name, "repository_identity.canonical_name"@)
    }
}

impl RepositoryIdentity {
    /// Validates repository identity without consulting a local Workspace.
    pub fn validate(&self) -> (result: Result<()>)
        ensures
            fails_as(result, self.deep_view().problem()),
    {
        require_text(self.canonical_name.as_str(), "repository_identity.canonical_name")
    }
}

/// Supported engineering object categories.
#[derive(Clone, Copy, Debug, PartialEq, Eq, Structural, PartialOrd, Ord, Hash)]
pub enum ArtifactKind {
    Module,
    File,
    Symbol,
    Api,
    Schema,
    Test,
}

impl DeepView for ArtifactKind {
    type V = ArtifactKind;

    open spec fn deep_view(&self) -> ArtifactKind {
        *self
    }
}

impl Value for ArtifactKind {
    fn copied(&self) -> (copy: Self) {
        *self
    }

    fn same(&self, other: &Self) -> (equal: bool) {
        *self == *other
    }
}

impl Json for ArtifactKind {
    open spec fn json(model: ArtifactKind) -> Seq<char> {
        match model {
            ArtifactKind::Module => "\"module\""@,
            ArtifactKind::File => "\"file\""@,
            ArtifactKind::Symbol => "\"symbol\""@,
            ArtifactKind::Api => "\"api\""@,
            ArtifactKind::Schema => "\"schema\""@,
            ArtifactKind::Test => "\"test\""@,
        }
    }

    fn write_json(&self, out: &mut String) {
        match self {
            ArtifactKind::Module => out.append("\"module\""),
            ArtifactKind::File => out.append("\"file\""),
            ArtifactKind::Symbol => out.append("\"symbol\""),
            ArtifactKind::Api => out.append("\"api\""),
            ArtifactKind::Schema => out.append("\"schema\""),
            ArtifactKind::Test => out.append("\"test\""),
        }
    }
}

impl ArtifactKind {
    /// The name that identifies a kind in digests and explanations.
    pub open spec fn name(self) -> Seq<char> {
        match self {
            ArtifactKind::Module => "module"@,
            ArtifactKind::File => "file"@,
            ArtifactKind::Symbol => "symbol"@,
            ArtifactKind::Api => "api"@,
            ArtifactKind::Schema => "schema"@,
            ArtifactKind::Test => "test"@,
        }
    }

    fn stable_name(self) -> (name: &'static str)
        ensures
            name@ == self.name(),
    {
        match self {
            ArtifactKind::Module => "module",
            ArtifactKind::File => "file",
            ArtifactKind::Symbol => "symbol",
            ArtifactKind::Api => "api",
            ArtifactKind::Schema => "schema",
            ArtifactKind::Test => "test",
        }
    }
}

/// Canonical repository-relative path used by every deterministic Artifact locator.
#[derive(Clone, Debug, PartialEq, Eq, PartialOrd, Ord, Hash)]
pub struct RepoRelativePath {
    spelling: String,
}

impl View for RepoRelativePath {
    type V = Seq<char>;

    closed spec fn view(&self) -> Seq<char> {
        self.spelling@
    }
}

impl DeepView for RepoRelativePath {
    type V = Seq<char>;

    open spec fn deep_view(&self) -> Seq<char> {
        self@
    }
}

impl Value for RepoRelativePath {
    fn copied(&self) -> (copy: Self) {
        RepoRelativePath { spelling: self.spelling.clone() }
    }

    fn same(&self, other: &Self) -> (equal: bool) {
        self.spelling == other.spelling
    }
}

impl Ordered for RepoRelativePath {
    open spec fn below(left: Seq<char>, right: Seq<char>) -> bool {
        text_below(left, right)
    }

    proof fn order_laws(a: Seq<char>, b: Seq<char>, c: Seq<char>) {
        String::order_laws(a, b, c);
    }

    fn is_below(&self, other: &Self) -> (result: bool) {
        text_is_below(self.spelling.as_str(), other.spelling.as_str())
    }
}

impl Json for RepoRelativePath {
    open spec fn json(model: Seq<char>) -> Seq<char> {
        json_string(model)
    }

    fn write_json(&self, out: &mut String) {
        let literal = json_string_text(self.as_str());
        out.append(literal.as_str());
    }
}

/// A path component that no canonical path holds.
pub open spec fn is_dot_segment(component: Seq<char>) -> bool {
    component.len() == 0 || component == "."@ || component == ".."@
}

/// Why a text is no canonical repository-relative path, if it is none.
pub open spec fn path_problem(value: Seq<char>) -> Option<ErrorView> {
    first(
        text_problem(value, "artifact_locator.path"@),
        first(
            given(
                value.len() > 0 && value[0] == '/' || value.contains('\\'),
                invalid("artifact_locator.path must be a canonical repository-relative path"@),
            ),
            given(
                exists|i: int|
                    0 <= i < split_on(value, '/').len() && is_dot_segment(#[trigger] split_on(value, '/')[i]),
                invalid("artifact_locator.path must not contain empty or dot segments"@),
            ),
        ),
    )
}

fn validate_repo_relative_path(value: &str) -> (result: Result<()>)
    ensures
        fails_as(result, path_problem(value@)),
{
    require_text(value, "artifact_locator.path")?;
    let chars = characters(value);
    let mut index: usize = 0;
    while index < chars.len()
        invariant
            index <= chars@.len(),
            chars@ == value@,
            !crate::checks::blank(value@),
            index > 0 ==> value@[0] != '/',
            forall|i: int| 0 <= i < index ==> value@[i] != '\\',
        decreases chars@.len() - index,
    {
        if chars[index] == '\\' || index == 0 && chars[index] == '/' {
            assert(chars@[index as int] == '\\' ==> value@.contains('\\'));
            return Err(invalid_input("artifact_locator.path must be a canonical repository-relative path"));
        }
        index = index + 1;
    }
    assert(!value@.contains('\\'));
    let components = split_text(value, '/');
    let ghost model = split_on(value@, '/');
    let mut at: usize = 0;
    while at < components.len()
        invariant
            at <= components@.len(),
            model == split_on(value@, '/'),
            components.deep_view() == model,
            !crate::checks::blank(value@),
            !(value@.len() > 0 && value@[0] == '/' || value@.contains('\\')),
            forall|i: int| 0 <= i < at ==> !is_dot_segment(#[trigger] model[i]),
        decreases components@.len() - at,
    {
        let component = components[at].as_str();
        assert(component@ == model[at as int]);
        if component.is_empty() || same_text(component, ".") || same_text(component, "..") {
            assert(is_dot_segment(model[at as int]));
            return Err(invalid_input("artifact_locator.path must not contain empty or dot segments"));
        }
        at = at + 1;
    }
    Ok(())
}

impl RepoRelativePath {
    /// Creates a canonical repository-relative path.
    pub fn new(value: &str) -> (result: Result<Self>)
        ensures
            fails_as(result, path_problem(value@)),
            result is Ok ==> result->Ok_0@ == value@,
    {
        validate_repo_relative_path(value)?;
        Ok(RepoRelativePath { spelling: value.to_owned() })
    }

    /// Takes a stored spelling as it is; [`ArtifactLocator::validate`] tells whether it is canonical.
    pub fn from_stored(value: String) -> (path: Self)
        ensures
            path@ == value@,
    {
        RepoRelativePath { spelling: value }
    }

    /// The spelling of the path.
    #[must_use]
    pub fn as_str(&self) -> (spelling: &str)
        ensures
            spelling@ == self@,
    {
        self.spelling.as_str()
    }

    fn validate(&self) -> (result: Result<()>)
        ensures
            fails_as(result, path_problem(self@)),
    {
        validate_repo_relative_path(self.spelling.as_str())
    }
}

/// Kind-specific, deterministic coordinates for an Artifact inside one Repository.
#[derive(Clone, Debug, PartialEq, Eq, PartialOrd, Ord, Hash)]
pub enum ArtifactLocator {
    File {
        path: RepoRelativePath,
    },
    Module {
        path: RepoRelativePath,
    },
    Api {
        path: RepoRelativePath,
        protocol: String,
        operation: String,
        normalized_route: String,
    },
    Schema {
        path: RepoRelativePath,
        namespace: String,
        version: String,
        qualified_name: String,
    },
    Symbol {
        path: RepoRelativePath,
        language: String,
        module: String,
        enclosing_type: Option<String>,
        symbol_name: String,
        signature: String,
    },
    Test {
        path: RepoRelativePath,
        qualified_test_name: String,
    },
}

/// The model of [`ArtifactLocator`].
pub enum ArtifactLocatorView {
    File {
        path: Seq<char>,
    },
    Module {
        path: Seq<char>,
    },
    Api {
        path: Seq<char>,
        protocol: Seq<char>,
        operation: Seq<char>,
        normalized_route: Seq<char>,
    },
    Schema {
        path: Seq<char>,
        namespace: Seq<char>,
        version: Seq<char>,
        qualified_name: Seq<char>,
    },
    Symbol {
        path: Seq<char>,
        language: Seq<char>,
        module: Seq<char>,
        enclosing_type: Option<Seq<char>>,
        symbol_name: Seq<char>,
        signature: Seq<char>,
    },
    Test {
        path: Seq<char>,
        qualified_test_name: Seq<char>,
    },
}

impl DeepView for ArtifactLocator {
    type V = ArtifactLocatorView;

    open spec fn deep_view(&self) -> ArtifactLocatorView {
        match self {
            ArtifactLocator::File { path } => ArtifactLocatorView::File { path: path.deep_view() },
            ArtifactLocator::Module { path } => ArtifactLocatorView::Module { path: path.deep_view() },
            ArtifactLocator::Api { path, protocol, operation, normalized_route } => ArtifactLocatorView::Api {
                path: path.deep_view(),
                protocol: protocol.deep_view(),
                operation: operation.deep_view(),
                normalized_route: normalized_route.deep_view(),
            },
            ArtifactLocator::Schema { path, namespace, version, qualified_name } => ArtifactLocatorView::Schema {
                path: path.deep_view(),
                namespace: namespace.deep_view(),
                version: version.deep_view(),
                qualified_name: qualified_name.deep_view(),
            },
            ArtifactLocator::Symbol {
                path,
                language,
                module,
                enclosing_type,
                symbol_name,
                signature,
            } => ArtifactLocatorView::Symbol {
                path: path.deep_view(),
                language: language.deep_view(),
                module: module.deep_view(),
                enclosing_type: enclosing_type.deep_view(),
                symbol_name: symbol_name.deep_view(),
                signature: signature.deep_view(),
            },
            ArtifactLocator::Test { path, qualified_test_name } => ArtifactLocatorView::Test {
                path: path.deep_view(),
                qualified_test_name: qualified_test_name.deep_view(),
            },
        }
    }
}

impl Value for ArtifactLocator {
    fn copied(&self) -> (copy: Self) {
        match self {
            ArtifactLocator::File { path } => ArtifactLocator::File { path: path.copied() },
            ArtifactLocator::Module { path } => ArtifactLocator::Module { path: path.copied() },
            ArtifactLocator::Api { path, protocol, operation, normalized_route } => ArtifactLocator::Api {
                path: path.copied(),
                protocol: protocol.copied(),
                operation: operation.copied(),
                normalized_route: normalized_route.copied(),
            },
            ArtifactLocator::Schema { path, namespace, version, qualified_name } => ArtifactLocator::Schema {
                path: path.copied(),
                namespace: namespace.copied(),
                version: version.copied(),
                qualified_name: qualified_name.copied(),
            },
            ArtifactLocator::Symbol {
                path,
                language,
                module,
                enclosing_type,
                symbol_name,
                signature,
            } => ArtifactLocator::Symbol {
                path: path.copied(),
                language: language.copied(),
                module: module.copied(),
                enclosing_type: enclosing_type.copied(),
                symbol_name: symbol_name.copied(),
                signature: signature.copied(),
            },
            ArtifactLocator::Test { path, qualified_test_name } => {
                ArtifactLocator::Test { path: path.copied(), qualified_test_name: qualified_test_name.copied() }
            },
        }
    }

    fn same(&self, other: &Self) -> (equal: bool) {
        match (self, other) {
            (
                ArtifactLocator::File { path: left_path },
                ArtifactLocator::File { path: right_path },
            ) => left_path.same(right_path),
            (
                ArtifactLocator::Module { path: left_path },
                ArtifactLocator::Module { path: right_path },
            ) => left_path.same(right_path),
            (
                ArtifactLocator::Api {
                    path: left_path,
                    protocol: left_protocol,
                    operation: left_operation,
                    normalized_route: left_normalized_route,
                },
                ArtifactLocator::Api {
                    path: right_path,
                    protocol: right_protocol,
                    operation: right_operation,
                    normalized_route: right_normalized_route,
                },
            ) => left_path.same(right_path)
                && left_protocol.same(right_protocol)
                && left_operation.same(right_operation)
                && left_normalized_route.same(right_normalized_route),
            (
                ArtifactLocator::Schema {
                    path: left_path,
                    namespace: left_namespace,
                    version: left_version,
                    qualified_name: left_qualified_name,
                },
                ArtifactLocator::Schema {
                    path: right_path,
                    namespace: right_namespace,
                    version: right_version,
                    qualified_name: right_qualified_name,
                },
            ) => left_path.same(right_path)
                && left_namespace.same(right_namespace)
                && left_version.same(right_version)
                && left_qualified_name.same(right_qualified_name),
            (
                ArtifactLocator::Symbol {
                    path: left_path,
                    language: left_language,
                    module: left_module,
                    enclosing_type: left_enclosing_type,
                    symbol_name: left_symbol_name,
                    signature: left_signature,
                },
                ArtifactLocator::Symbol {
                    path: right_path,
                    language: right_language,
                    module: right_module,
                    enclosing_type: right_enclosing_type,
                    symbol_name: right_symbol_name,
                    signature: right_signature,
                },
            ) => left_path.same(right_path)
                && left_language.same(right_language)
                && left_module.same(right_module)
                && left_enclosing_type.same(right_enclosing_type)
                && left_symbol_name.same(right_symbol_name)
                && left_signature.same(right_signature),
            (
                ArtifactLocator::Test { path: left_path, qualified_test_name: left_qualified_test_name },
                ArtifactLocator::Test { path: right_path, qualified_test_name: right_qualified_test_name },
            ) => left_path.same(right_path) && left_qualified_test_name.same(right_qualified_test_name),
            _ => false,
        }
    }
}

impl Json for ArtifactLocator {
    open spec fn json(model: ArtifactLocatorView) -> Seq<char> {
        match model {
            ArtifactLocatorView::File { path } => {
                let body = with_member(Seq::<char>::empty(), "locator_kind"@, "\"file\""@);
                let body = with_member(body, "path"@, <RepoRelativePath as Json>::json(path));
                object(body)
            },
            ArtifactLocatorView::Module { path } => {
                let body = with_member(Seq::<char>::empty(), "locator_kind"@, "\"module\""@);
                let body = with_member(body, "path"@, <RepoRelativePath as Json>::json(path));
                object(body)
            },
            ArtifactLocatorView::Api { path, protocol, operation, normalized_route } => {
                let body = with_member(Seq::<char>::empty(), "locator_kind"@, "\"api\""@);
                let body = with_member(body, "path"@, <RepoRelativePath as Json>::json(path));
                let body = with_member(body, "protocol"@, <String as Json>::json(protocol));
                let body = with_member(body, "operation"@, <String as Json>::json(operation));
                let body = with_member(body, "normalized_route"@, <String as Json>::json(normalized_route));
                object(body)
            },
            ArtifactLocatorView::Schema { path, namespace, version, qualified_name } => {
                let body = with_member(Seq::<char>::empty(), "locator_kind"@, "\"schema\""@);
                let body = with_member(body, "path"@, <RepoRelativePath as Json>::json(path));
                let body = with_member(body, "namespace"@, <String as Json>::json(namespace));
                let body = with_member(body, "version"@, <String as Json>::json(version));
                let body = with_member(body, "qualified_name"@, <String as Json>::json(qualified_name));
                object(body)
            },
            ArtifactLocatorView::Symbol { path, language, module, enclosing_type, symbol_name, signature } => {
                let body = with_member(Seq::<char>::empty(), "locator_kind"@, "\"symbol\""@);
                let body = with_member(body, "path"@, <RepoRelativePath as Json>::json(path));
                let body = with_member(body, "language"@, <String as Json>::json(language));
                let body = with_member(body, "module"@, <String as Json>::json(module));
                let body = with_member(body, "enclosing_type"@, <Option<String> as Json>::json(enclosing_type));
                let body = with_member(body, "symbol_name"@, <String as Json>::json(symbol_name));
                let body = with_member(body, "signature"@, <String as Json>::json(signature));
                object(body)
            },
            ArtifactLocatorView::Test { path, qualified_test_name } => {
                let body = with_member(Seq::<char>::empty(), "locator_kind"@, "\"test\""@);
                let body = with_member(body, "path"@, <RepoRelativePath as Json>::json(path));
                let body = with_member(body, "qualified_test_name"@, <String as Json>::json(qualified_test_name));
                object(body)
            },
        }
    }

    fn write_json(&self, out: &mut String) {
        match self {
            ArtifactLocator::File { path } => {
                let mut body = String::new();
                push_member_text(&mut body, "locator_kind", "\"file\"");
                push_member(&mut body, "path", path);
                push_object(out, body.as_str());
            },
            ArtifactLocator::Module { path } => {
                let mut body = String::new();
                push_member_text(&mut body, "locator_kind", "\"module\"");
                push_member(&mut body, "path", path);
                push_object(out, body.as_str());
            },
            ArtifactLocator::Api { path, protocol, operation, normalized_route } => {
                let mut body = String::new();
                push_member_text(&mut body, "locator_kind", "\"api\"");
                push_member(&mut body, "path", path);
                push_member(&mut body, "protocol", protocol);
                push_member(&mut body, "operation", operation);
                push_member(&mut body, "normalized_route", normalized_route);
                push_object(out, body.as_str());
            },
            ArtifactLocator::Schema { path, namespace, version, qualified_name } => {
                let mut body = String::new();
                push_member_text(&mut body, "locator_kind", "\"schema\"");
                push_member(&mut body, "path", path);
                push_member(&mut body, "namespace", namespace);
                push_member(&mut body, "version", version);
                push_member(&mut body, "qualified_name", qualified_name);
                push_object(out, body.as_str());
            },
            ArtifactLocator::Symbol { path, language, module, enclosing_type, symbol_name, signature } => {
                let mut body = String::new();
                push_member_text(&mut body, "locator_kind", "\"symbol\"");
                push_member(&mut body, "path", path);
                push_member(&mut body, "language", language);
                push_member(&mut body, "module", module);
                push_member(&mut body, "enclosing_type", enclosing_type);
                push_member(&mut body, "symbol_name", symbol_name);
                push_member(&mut body, "signature", signature);
                push_object(out, body.as_str());
            },
            ArtifactLocator::Test { path, qualified_test_name } => {
                let mut body = String::new();
                push_member_text(&mut body, "locator_kind", "\"test\"");
                push_member(&mut body, "path", path);
                push_member(&mut body, "qualified_test_name", qualified_test_name);
                push_object(out, body.as_str());
            },
        }
    }
}

impl ArtifactLocatorView {
    /// The kind of artifact that a locator names.
    pub open spec fn kind(self) -> ArtifactKind {
        match self {
            ArtifactLocatorView::File { .. } => ArtifactKind::File,
            ArtifactLocatorView::Module { .. } => ArtifactKind::Module,
            ArtifactLocatorView::Api { .. } => ArtifactKind::Api,
            ArtifactLocatorView::Schema { .. } => ArtifactKind::Schema,
            ArtifactLocatorView::Symbol { .. } => ArtifactKind::Symbol,
            ArtifactLocatorView::Test { .. } => ArtifactKind::Test,
        }
    }

    /// The path of a locator.
    pub open spec fn path(self) -> Seq<char> {
        match self {
            ArtifactLocatorView::File { path } => path,
            ArtifactLocatorView::Module { path } => path,
            ArtifactLocatorView::Api { path, .. } => path,
            ArtifactLocatorView::Schema { path, .. } => path,
            ArtifactLocatorView::Symbol { path, .. } => path,
            ArtifactLocatorView::Test { path, .. } => path,
        }
    }

    /// Why a locator is invalid, if it is.
    pub open spec fn problem(self) -> Option<ErrorView> {
        first(
            path_problem(self.path()),
            match self {
                ArtifactLocatorView::File { .. } => None,
                ArtifactLocatorView::Module { .. } => None,
                ArtifactLocatorView::Api { protocol, operation, normalized_route, .. } => first(
                    text_problem(protocol, "artifact_locator.protocol"@),
                    first(
                        text_problem(operation, "artifact_locator.operation"@),
                        first(
                            text_problem(normalized_route, "artifact_locator.normalized_route"@),
                            given(
                                words(normalized_route).len() != 1,
                                invalid("artifact_locator.normalized_route must not contain whitespace"@),
                            ),
                        ),
                    ),
                ),
                ArtifactLocatorView::Schema { namespace, version, qualified_name, .. } => first(
                    text_problem(namespace, "artifact_locator.namespace"@),
                    first(
                        text_problem(version, "artifact_locator.version"@),
                        text_problem(qualified_name, "artifact_locator.qualified_name"@),
                    ),
                ),
                ArtifactLocatorView::Symbol { language, module, enclosing_type, symbol_name, signature, .. } => first(
                    text_problem(language, "artifact_locator.language"@),
                    first(
                        text_problem(module, "artifact_locator.module"@),
                        first(
                            optional_text_problem(enclosing_type, "artifact_locator.enclosing_type"@),
                            first(
                                text_problem(symbol_name, "artifact_locator.symbol_name"@),
                                text_problem(signature, "artifact_locator.signature"@),
                            ),
                        ),
                    ),
                ),
                ArtifactLocatorView::Test { qualified_test_name, .. } => text_problem(
                    qualified_test_name,
                    "artifact_locator.qualified_test_name"@,
                ),
            },
        )
    }

    /// The human-readable key of a locator.
    pub open spec fn canonical_key(self) -> Seq<char> {
        match self {
            ArtifactLocatorView::File { path } => path,
            ArtifactLocatorView::Module { path } => path,
            ArtifactLocatorView::Api { path, protocol, operation, normalized_route } => path + "#"@ + protocol + ":"@
                + operation + ":"@ + normalized_route,
            ArtifactLocatorView::Schema { path, namespace, version, qualified_name } => path + "#"@ + namespace + "@"@
                + version + ":"@ + qualified_name,
            ArtifactLocatorView::Symbol { path, language, module, enclosing_type, symbol_name, signature } => path
                + "#"@ + language + ":"@ + module + ":"@ + (match enclosing_type {
                Some(name) => name,
                None => ""@,
            }) + ":"@ + symbol_name + ":"@ + signature,
            ArtifactLocatorView::Test { path, qualified_test_name } => path + "#"@ + qualified_test_name,
        }
    }
}

impl ArtifactLocator {
    /// The kind of artifact that this locator names.
    #[must_use]
    pub fn kind(&self) -> (kind: ArtifactKind)
        ensures
            kind == self.deep_view().kind(),
    {
        match self {
            ArtifactLocator::File { .. } => ArtifactKind::File,
            ArtifactLocator::Module { .. } => ArtifactKind::Module,
            ArtifactLocator::Api { .. } => ArtifactKind::Api,
            ArtifactLocator::Schema { .. } => ArtifactKind::Schema,
            ArtifactLocator::Symbol { .. } => ArtifactKind::Symbol,
            ArtifactLocator::Test { .. } => ArtifactKind::Test,
        }
    }

    /// The path of this locator.
    #[must_use]
    pub fn path(&self) -> (path: &RepoRelativePath)
        ensures
            path@ == self.deep_view().path(),
    {
        match self {
            ArtifactLocator::File { path } => path,
            ArtifactLocator::Module { path } => path,
            ArtifactLocator::Api { path, .. } => path,
            ArtifactLocator::Schema { path, .. } => path,
            ArtifactLocator::Symbol { path, .. } => path,
            ArtifactLocator::Test { path, .. } => path,
        }
    }

    /// Validates every required coordinate for this Artifact kind.
    pub fn validate(&self) -> (result: Result<()>)
        ensures
            fails_as(result, self.deep_view().problem()),
    {
        self.path().validate()?;
        match self {
            ArtifactLocator::File { .. } => Ok(()),
            ArtifactLocator::Module { .. } => Ok(()),
            ArtifactLocator::Api { protocol, operation, normalized_route, .. } => {
                require_text(protocol.as_str(), "artifact_locator.protocol")?;
                require_text(operation.as_str(), "artifact_locator.operation")?;
                require_text(normalized_route.as_str(), "artifact_locator.normalized_route")?;
                let parts = split_words(normalized_route.as_str());
                assert(parts.deep_view().len() == parts@.len());
                if parts.len() != 1 {
                    return Err(invalid_input("artifact_locator.normalized_route must not contain whitespace"));
                }
                Ok(())
            },
            ArtifactLocator::Schema { namespace, version, qualified_name, .. } => {
                require_text(namespace.as_str(), "artifact_locator.namespace")?;
                require_text(version.as_str(), "artifact_locator.version")?;
                require_text(qualified_name.as_str(), "artifact_locator.qualified_name")
            },
            ArtifactLocator::Symbol { language, module, enclosing_type, symbol_name, signature, .. } => {
                require_text(language.as_str(), "artifact_locator.language")?;
                require_text(module.as_str(), "artifact_locator.module")?;
                require_optional_text(enclosing_type, "artifact_locator.enclosing_type")?;
                require_text(symbol_name.as_str(), "artifact_locator.symbol_name")?;
                require_text(signature.as_str(), "artifact_locator.signature")
            },
            ArtifactLocator::Test { qualified_test_name, .. } => require_text(
                qualified_test_name.as_str(),
                "artifact_locator.qualified_test_name",
            ),
        }
    }

    /// Stable human-readable key accepted by exact Task Signals.
    #[must_use]
    pub fn canonical_key(&self) -> (key: String)
        ensures
            key@ == self.deep_view().canonical_key(),
    {
        let mut key = self.path().as_str().to_owned();
        match self {
            ArtifactLocator::File { .. } => {},
            ArtifactLocator::Module { .. } => {},
            ArtifactLocator::Api { protocol, operation, normalized_route, .. } => {
                key.append("#");
                key.append(protocol.as_str());
                key.append(":");
                key.append(operation.as_str());
                key.append(":");
                key.append(normalized_route.as_str());
            },
            ArtifactLocator::Schema { namespace, version, qualified_name, .. } => {
                key.append("#");
                key.append(namespace.as_str());
                key.append("@");
                key.append(version.as_str());
                key.append(":");
                key.append(qualified_name.as_str());
            },
            ArtifactLocator::Symbol { language, module, enclosing_type, symbol_name, signature, .. } => {
                key.append("#");
                key.append(language.as_str());
                key.append(":");
                key.append(module.as_str());
                key.append(":");
                match enclosing_type {
                    Some(name) => key.append(name.as_str()),
                    None => key.append(""),
                }
                key.append(":");
                key.append(symbol_name.as_str());
                key.append(":");
                key.append(signature.as_str());
            },
            ArtifactLocator::Test { qualified_test_name, .. } => {
                key.append("#");
                key.append(qualified_test_name.as_str());
            },
        }
        key
    }
}

/// Transient Repository-scoped interpretation of one Artifact Focus query.
#[derive(Clone, Debug, PartialEq, Eq, PartialOrd, Ord, Hash)]
pub struct ResolvedFocus {
    pub repository_id: RepositoryId,
    pub locator: ArtifactLocator,
}

/// The model of [`ResolvedFocus`].
pub struct ResolvedFocusView {
    pub repository_id: Seq<char>,
    pub locator: ArtifactLocatorView,
}

impl DeepView for ResolvedFocus {
    type V = ResolvedFocusView;

    open spec fn deep_view(&self) -> ResolvedFocusView {
        ResolvedFocusView {
            repository_id: self.repository_id.deep_view(),
            locator: self.locator.deep_view(),
        }
    }
}

impl Value for ResolvedFocus {
    fn copied(&self) -> (copy: Self) {
        ResolvedFocus {
            repository_id: self.repository_id.copied(),
            locator: self.locator.copied(),
        }
    }

    fn same(&self, other: &Self) -> (equal: bool) {
        self.repository_id.same(&other.repository_id)
            && self.locator.same(&other.locator)
    }
}

impl ResolvedFocusView {
    /// The JSON members, behind those of `body`.
    pub open spec fn json_members(self, body: Seq<char>) -> Seq<char> {
        let body = with_member(body, "repository_id"@, <RepositoryId as Json>::json(self.repository_id));
        let body = with_member(body, "locator"@, <ArtifactLocator as Json>::json(self.locator));
        body
    }
}

impl ResolvedFocus {
    fn push_members(&self, text: &mut String)
        ensures
            final(text)@ == self.deep_view().json_members(old(text)@),
    {
        push_member(text, "repository_id", &self.repository_id);
        push_member(text, "locator", &self.locator);
    }
}

impl Json for ResolvedFocus {
    open spec fn json(model: ResolvedFocusView) -> Seq<char> {
        object(model.json_members(Seq::<char>::empty()))
    }

    fn write_json(&self, out: &mut String) {
        let mut body = String::new();
        self.push_members(&mut body);
        push_object(out, body.as_str());
    }
}

impl ResolvedFocus {
    /// Validates the complete kind-specific locator.
    pub fn validate(&self) -> (result: Result<()>)
        ensures
            fails_as(result, self.deep_view().locator.problem()),
    {
        self.locator.validate()
    }
}

/// Deterministic, rebuildable identity of one `EngineeringArtifact`.
#[derive(Clone, Debug, PartialEq, Eq, PartialOrd, Ord, Hash)]
pub struct ArtifactKey {
    repository_id: RepositoryId,
    locator: ArtifactLocator,
    digest: String,
}

/// The model of [`ArtifactKey`].
pub struct ArtifactKeyView {
    pub repository_id: Seq<char>,
    pub locator: ArtifactLocatorView,
    pub digest: Seq<char>,
}

impl DeepView for ArtifactKey {
    type V = ArtifactKeyView;

    closed spec fn deep_view(&self) -> ArtifactKeyView {
        ArtifactKeyView {
            repository_id: self.repository_id.deep_view(),
            locator: self.locator.deep_view(),
            digest: self.digest.deep_view(),
        }
    }
}

impl Value for ArtifactKey {
    fn copied(&self) -> (copy: Self) {
        ArtifactKey {
            repository_id: self.repository_id.copied(),
            locator: self.locator.copied(),
            digest: self.digest.copied(),
        }
    }

    fn same(&self, other: &Self) -> (equal: bool) {
        self.repository_id.same(&other.repository_id)
            && self.locator.same(&other.locator)
            && self.digest.same(&other.digest)
    }
}

impl ArtifactKeyView {
    /// The JSON members, behind those of `body`.
    pub open spec fn json_members(self, body: Seq<char>) -> Seq<char> {
        let body = with_member(body, "repository_id"@, <RepositoryId as Json>::json(self.repository_id));
        let body = with_member(body, "locator"@, <ArtifactLocator as Json>::json(self.locator));
        let body = with_member(body, "digest"@, <String as Json>::json(self.digest));
        body
    }
}

impl ArtifactKey {
    fn push_members(&self, text: &mut String)
        ensures
            final(text)@ == self.deep_view().json_members(old(text)@),
    {
        push_member(text, "repository_id", &self.repository_id);
        push_member(text, "locator", &self.locator);
        push_member(text, "digest", &self.digest);
    }
}

impl Json for ArtifactKey {
    open spec fn json(model: ArtifactKeyView) -> Seq<char> {
        object(model.json_members(Seq::<char>::empty()))
    }

    fn write_json(&self, out: &mut String) {
        let mut body = String::new();
        self.push_members(&mut body);
        push_object(out, body.as_str());
    }
}

/// The digest that identifies an artifact: its repository, its kind and its whole locator.
pub open spec fn artifact_digest_text(repository_id: Seq<char>, locator: ArtifactLocatorView) -> Seq<char> {
    "art_"@ + sha256_hex(framed_all(digested_identity(repository_id, locator)))
}

/// The names of the JSON members of a locator.
spec fn member_names(kind: ArtifactKind) -> Seq<Seq<char>> {
    match kind {
        ArtifactKind::File | ArtifactKind::Module => seq!["locator_kind"@, "path"@],
        ArtifactKind::Api => seq![
            "locator_kind"@,
            "path"@,
            "protocol"@,
            "operation"@,
            "normalized_route"@,
        ],
        ArtifactKind::Schema => seq!["locator_kind"@, "path"@, "namespace"@, "version"@, "qualified_name"@],
        ArtifactKind::Symbol => seq![
            "locator_kind"@,
            "path"@,
            "language"@,
            "module"@,
            "enclosing_type"@,
            "symbol_name"@,
            "signature"@,
        ],
        ArtifactKind::Test => seq!["locator_kind"@, "path"@, "qualified_test_name"@],
    }
}

/// The values of the JSON members of a locator.
spec fn member_values(locator: ArtifactLocatorView) -> Seq<Seq<char>> {
    match locator {
        ArtifactLocatorView::File { path } => seq!["\"file\""@, json_string(path)],
        ArtifactLocatorView::Module { path } => seq!["\"module\""@, json_string(path)],
        ArtifactLocatorView::Api { path, protocol, operation, normalized_route } => seq![
            "\"api\""@,
            json_string(path),
            json_string(protocol),
            json_string(operation),
            json_string(normalized_route),
        ],
        ArtifactLocatorView::Schema { path, namespace, version, qualified_name } => seq![
            "\"schema\""@,
            json_string(path),
            json_string(namespace),
            json_string(version),
            json_string(qualified_name),
        ],
        ArtifactLocatorView::Symbol { path, language, module, enclosing_type, symbol_name, signature } => seq![
            "\"symbol\""@,
            json_string(path),
            json_string(language),
            json_string(module),
            <Option<String> as Json>::json(enclosing_type),
            json_string(symbol_name),
            json_string(signature),
        ],
        ArtifactLocatorView::Test { path, qualified_test_name } => seq![
            "\"test\""@,
            json_string(path),
            json_string(qualified_test_name),
        ],
    }
}

proof fn locator_members(locator: ArtifactLocatorView)
    ensures
        <ArtifactLocator as Json>::json(locator) == object(
            first_members(
                member_names(locator.kind()),
                member_values(locator),
                member_names(locator.kind()).len(),
            ),
        ),
{
    reveal_with_fuel(first_members, 8);
}

proof fn literal_reads_back(left: Seq<char>, right: Seq<char>)
    ensures
        reads_back(json_string(left), json_string(right)),
        json_string(left) == json_string(right) ==> left == right,
{
    reveal(reads_back);
    let (a, b) = (json_string(left), json_string(right));
    assert forall|x: Seq<char>, y: Seq<char>| #[trigger] (a + x) == #[trigger] (b + y) implies a == b by {
        literals_read_back(left, right, x, y);
    }
    if a == b {
        literals_read_back(left, right, Seq::empty(), Seq::empty());
    }
}

proof fn option_reads_back(left: Option<Seq<char>>, right: Option<Seq<char>>)
    ensures
        reads_back(<Option<String> as Json>::json(left), <Option<String> as Json>::json(right)),
        <Option<String> as Json>::json(left) == <Option<String> as Json>::json(right) ==> left == right,
{
    reveal(reads_back);
    let (a, b) = (<Option<String> as Json>::json(left), <Option<String> as Json>::json(right));
    assert forall|x: Seq<char>, y: Seq<char>| #[trigger] (a + x) == #[trigger] (b + y) implies a == b by {
        options_read_back(left, right, x, y);
    }
    if a == b {
        options_read_back(left, right, Seq::empty(), Seq::empty());
    }
}

proof fn member_values_read_back(left: ArtifactLocatorView, right: ArtifactLocatorView)
    requires
        left.kind() == right.kind(),
    ensures
        forall|i: int|
            0 <= i < member_names(left.kind()).len() ==> reads_back(
                #[trigger] member_values(left)[i],
                member_values(right)[i],
            ),
        member_values(left) == member_values(right) ==> left == right,
{
    reveal(reads_back);
    let (a, b) = (member_values(left), member_values(right));
    assert(a[0] == b[0]);
    literal_reads_back(left.path(), right.path());
    assert(a[1] == json_string(left.path()) && b[1] == json_string(right.path()));
    match (left, right) {
        (
            ArtifactLocatorView::Api { protocol, operation, normalized_route, .. },
            ArtifactLocatorView::Api { protocol: p, operation: o, normalized_route: r, .. },
        ) => {
            literal_reads_back(protocol, p);
            literal_reads_back(operation, o);
            literal_reads_back(normalized_route, r);
            assert(a[2] == json_string(protocol) && b[2] == json_string(p));
            assert(a[3] == json_string(operation) && b[3] == json_string(o));
            assert(a[4] == json_string(normalized_route) && b[4] == json_string(r));
        },
        (
            ArtifactLocatorView::Schema { namespace, version, qualified_name, .. },
            ArtifactLocatorView::Schema { namespace: n, version: v, qualified_name: q, .. },
        ) => {
            literal_reads_back(namespace, n);
            literal_reads_back(version, v);
            literal_reads_back(qualified_name, q);
            assert(a[2] == json_string(namespace) && b[2] == json_string(n));
            assert(a[3] == json_string(version) && b[3] == json_string(v));
            assert(a[4] == json_string(qualified_name) && b[4] == json_string(q));
        },
        (
            ArtifactLocatorView::Symbol { language, module, enclosing_type, symbol_name, signature, .. },
            ArtifactLocatorView::Symbol {
                language: l,
                module: m,
                enclosing_type: e,
                symbol_name: n,
                signature: s,
                ..
            },
        ) => {
            literal_reads_back(language, l);
            literal_reads_back(module, m);
            option_reads_back(enclosing_type, e);
            literal_reads_back(symbol_name, n);
            literal_reads_back(signature, s);
            assert(a[2] == json_string(language) && b[2] == json_string(l));
            assert(a[3] == json_string(module) && b[3] == json_string(m));
            assert(
                a[4] == <Option<String> as Json>::json(enclosing_type) && b[4] == <Option<String> as Json>::json(e)
            );
            assert(a[5] == json_string(symbol_name) && b[5] == json_string(n));
            assert(a[6] == json_string(signature) && b[6] == json_string(s));
        },
        (
            ArtifactLocatorView::Test { qualified_test_name, .. },
            ArtifactLocatorView::Test { qualified_test_name: q, .. },
        ) => {
            literal_reads_back(qualified_test_name, q);
            assert(a[2] == json_string(qualified_test_name) && b[2] == json_string(q));
        },
        _ => {},
    }
}

proof fn kind_names_tell_kinds_apart(left: ArtifactKind, right: ArtifactKind)
    requires
        left.name() == right.name(),
    ensures
        left == right,
{
    reveal_strlit("module");
    reveal_strlit("file");
    reveal_strlit("symbol");
    reveal_strlit("api");
    reveal_strlit("schema");
    reveal_strlit("test");
    assert("module"@.len() == 6 && "module"@[0] == 'm');
    assert("file"@.len() == 4 && "file"@[0] == 'f');
    assert("symbol"@.len() == 6 && "symbol"@[0] == 's' && "symbol"@[1] == 'y');
    assert("api"@.len() == 3);
    assert("schema"@.len() == 6 && "schema"@[0] == 's' && "schema"@[1] == 'c');
    assert("test"@.len() == 4 && "test"@[0] == 't');
    assert(left.name().len() == right.name().len());
    assert(left.name()[0] == right.name()[0]);
    assert(left.name()[1] == right.name()[1]);
}

proof fn same_members_same_locator(left: ArtifactLocatorView, right: ArtifactLocatorView)
    requires
        left.kind() == right.kind(),
        object(first_members(member_names(left.kind()), member_values(left), member_names(left.kind()).len()))
            == object(
                first_members(member_names(left.kind()), member_values(right), member_names(left.kind()).len()),
            ),
    ensures
        left == right,
{
    let names = member_names(left.kind());
    member_values_read_back(left, right);
    objects_read_back(names, member_values(left), member_values(right), names.len());
    assert(member_values(left) =~= member_values(right));
}

proof fn identity_is_framed(repository_id: Seq<char>, locator: ArtifactLocatorView)
    ensures
        framed_all(digested_identity(repository_id, locator)) == framed(repository_id) + framed(locator.kind().name())
            + framed(<ArtifactLocator as Json>::json(locator)),
{
    let whole = digested_identity(repository_id, locator);
    let (a, b, c) = (whole[0], whole[1], whole[2]);
    let none = Seq::<Seq<char>>::empty();
    framed_next(none, a);
    framed_next(none.push(a), b);
    framed_next(none.push(a).push(b), c);
    assert(whole =~= none.push(a).push(b).push(c));
    assert(framed_all(none) + framed(a) =~= framed(a));
}

/// What the digest of an artifact covers: its repository, its kind and its whole locator.
pub open spec fn digested_identity(repository_id: Seq<char>, locator: ArtifactLocatorView) -> Seq<Seq<char>> {
    seq![repository_id, locator.kind().name(), <ArtifactLocator as Json>::json(locator)]
}

/// Moving a path or renaming a symbol changes the identity of an artifact: two artifacts whose
/// digests are taken over the same bytes have the same repository and the same locator.
pub proof fn digests_cover_the_locator(
    left_repository: Seq<char>,
    left: ArtifactLocatorView,
    right_repository: Seq<char>,
    right: ArtifactLocatorView,
)
    requires
        forall|i: int| 0 <= i < 3 ==> fits_frame(#[trigger] digested_identity(left_repository, left)[i]),
        forall|i: int| 0 <= i < 3 ==> fits_frame(#[trigger] digested_identity(right_repository, right)[i]),
        framed_all(digested_identity(left_repository, left)) == framed_all(
            digested_identity(right_repository, right),
        ),
    ensures
        left_repository == right_repository,
        left == right,
{
    let (a, b) = (digested_identity(left_repository, left), digested_identity(right_repository, right));
    framing_is_injective(a, b);
    assert(a[0] == b[0] && a[1] == b[1] && a[2] == b[2]);
    kind_names_tell_kinds_apart(left.kind(), right.kind());
    locator_members(left);
    locator_members(right);
    same_members_same_locator(left, right);
}

fn artifact_digest(repository_id: &RepositoryId, locator: &ArtifactLocator) -> (digest: String)
    ensures
        digest@ == artifact_digest_text(repository_id@, locator.deep_view()),
{
    let mut encoded = String::new();
    locator.write_json(&mut encoded);
    assert(encoded@ =~= <ArtifactLocator as Json>::json(locator.deep_view()));
    let mut bytes: Vec<u8> = Vec::new();
    push_framed(&mut bytes, repository_id.as_str());
    push_framed(&mut bytes, locator.kind().stable_name());
    push_framed(&mut bytes, encoded.as_str());
    proof {
        let model = locator.deep_view();
        assert(bytes@ =~= framed(repository_id@) + framed(model.kind().name()) + framed(
            <ArtifactLocator as Json>::json(model),
        ));
        identity_is_framed(repository_id@, model);
    }
    let digest = sha256_text(&bytes);
    joined2("art_", digest.as_str())
}

impl ArtifactKeyView {
    /// Why a stored key is invalid, if it is.
    pub open spec fn problem(self) -> Option<ErrorView> {
        first(
            self.locator.problem(),
            given(
                self.digest != artifact_digest_text(self.repository_id, self.locator),
                invalid("artifact_key.digest must match repository and deterministic locator"@),
            ),
        )
    }
}

/// The key of a valid locator in a repository.
pub open spec fn derived_key(repository_id: Seq<char>, locator: ArtifactLocatorView) -> ArtifactKeyView {
    ArtifactKeyView { repository_id, locator, digest: artifact_digest_text(repository_id, locator) }
}

/// Keys are equal exactly when they name the same artifact of the same repository, and their
/// digests have one form.
pub proof fn artifact_keys_identify_artifacts(
    repository_id: Seq<char>,
    locator: ArtifactLocatorView,
    other_repository_id: Seq<char>,
    other: ArtifactLocatorView,
)
    ensures
        derived_key(repository_id, locator) == derived_key(other_repository_id, other) <==> repository_id
            == other_repository_id && locator == other,
        is_prefixed_digest(derived_key(repository_id, locator).digest, "art_"@),
{
    prefixed_digests_have_one_form("art_"@, framed_all(digested_identity(repository_id, locator)));
}

impl ArtifactKey {
    /// Derives a deterministic key from Repository identity and exact locator.
    pub fn derive(repository_id: RepositoryId, locator: ArtifactLocator) -> (result: Result<Self>)
        ensures
            fails_as(result, locator.deep_view().problem()),
            result is Ok ==> result->Ok_0.deep_view() == derived_key(repository_id@, locator.deep_view())
                && is_prefixed_digest(result->Ok_0.deep_view().digest, "art_"@)
                    && result->Ok_0.deep_view().problem() is None,
    {
        locator.validate()?;
        proof {
            artifact_keys_identify_artifacts(
                repository_id@,
                locator.deep_view(),
                repository_id@,
                locator.deep_view(),
            );
        }
        let digest = artifact_digest(&repository_id, &locator);
        Ok(ArtifactKey { repository_id, locator, digest })
    }

    /// Takes a stored key as it is; [`ArtifactKey::validate`] tells whether its digest matches.
    pub fn from_stored(repository_id: RepositoryId, locator: ArtifactLocator, digest: String) -> (key: Self)
        ensures
            key.deep_view() == (ArtifactKeyView {
                repository_id: repository_id@,
                locator: locator.deep_view(),
                digest: digest@,
            }),
    {
        ArtifactKey { repository_id, locator, digest }
    }

    /// The repository that holds the artifact.
    #[must_use]
    pub fn repository_id(&self) -> (id: RepositoryId)
        ensures
            id@ == self.deep_view().repository_id,
    {
        self.repository_id.copied()
    }

    /// The kind of the artifact.
    #[must_use]
    pub fn kind(&self) -> (kind: ArtifactKind)
        ensures
            kind == self.deep_view().locator.kind(),
    {
        self.locator.kind()
    }

    /// The exact locator of the artifact.
    #[must_use]
    pub fn locator(&self) -> (locator: &ArtifactLocator)
        ensures
            locator.deep_view() == self.deep_view().locator,
    {
        &self.locator
    }

    /// The digest that identifies the artifact.
    #[must_use]
    pub fn digest(&self) -> (digest: &str)
        ensures
            digest@ == self.deep_view().digest,
    {
        self.digest.as_str()
    }

    /// Explains the deterministic locator identity.
    #[must_use]
    pub fn locator_explanation(&self) -> (text: String)
        ensures
            text@ == self.deep_view().explanation(),
    {
        let mut text = "exact ".to_owned();
        text.append(self.kind().stable_name());
        text.append(" locator ");
        text.append(self.locator.path().as_str());
        text.append(" in repository ");
        text.append(self.repository_id.as_str());
        text
    }

    /// Validates the stored digest against the complete deterministic locator.
    pub fn validate(&self) -> (result: Result<()>)
        ensures
            fails_as(result, self.deep_view().problem()),
    {
        self.locator.validate()?;
        let digest = artifact_digest(&self.repository_id, &self.locator);
        if self.digest != digest {
            return Err(invalid_input("artifact_key.digest must match repository and deterministic locator"));
        }
        Ok(())
    }
}

impl ArtifactKeyView {
    /// The explanation of a key's identity.
    pub open spec fn explanation(self) -> Seq<char> {
        "exact "@ + self.locator.kind().name() + " locator "@ + self.locator.path() + " in repository "@
            + self.repository_id
    }
}

/// A valid key is determined by its repository and locator: two valid keys of the same artifact
/// are the same key.
pub proof fn valid_keys_are_derived(key: ArtifactKeyView)
    requires
        key.problem() is None,
    ensures
        key == derived_key(key.repository_id, key.locator),
{
}

/// How durable Context knowledge relates to a persistent `EngineeringReference`.
#[derive(Clone, Copy, Debug, PartialEq, Eq, Structural)]
pub enum ReferenceRelation {
    Implements,
    Defines,
    Consumes,
    Validates,
    Constrains,
    DependsOn,
}

impl DeepView for ReferenceRelation {
    type V = ReferenceRelation;

    open spec fn deep_view(&self) -> ReferenceRelation {
        *self
    }
}

impl Value for ReferenceRelation {
    fn copied(&self) -> (copy: Self) {
        *self
    }

    fn same(&self, other: &Self) -> (equal: bool) {
        *self == *other
    }
}

impl Json for ReferenceRelation {
    open spec fn json(model: ReferenceRelation) -> Seq<char> {
        match model {
            ReferenceRelation::Implements => "\"implements\""@,
            ReferenceRelation::Defines => "\"defines\""@,
            ReferenceRelation::Consumes => "\"consumes\""@,
            ReferenceRelation::Validates => "\"validates\""@,
            ReferenceRelation::Constrains => "\"constrains\""@,
            ReferenceRelation::DependsOn => "\"depends_on\""@,
        }
    }

    fn write_json(&self, out: &mut String) {
        match self {
            ReferenceRelation::Implements => out.append("\"implements\""),
            ReferenceRelation::Defines => out.append("\"defines\""),
            ReferenceRelation::Consumes => out.append("\"consumes\""),
            ReferenceRelation::Validates => out.append("\"validates\""),
            ReferenceRelation::Constrains => out.append("\"constrains\""),
            ReferenceRelation::DependsOn => out.append("\"depends_on\""),
        }
    }
}

impl ReferenceRelation {
    /// The artifact kinds that a relation may point at.
    pub open spec fn allows(self, kind: ArtifactKind) -> bool {
        match self {
            ReferenceRelation::Implements => kind == ArtifactKind::Module || kind == ArtifactKind::File || kind
                == ArtifactKind::Symbol,
            ReferenceRelation::Defines => kind == ArtifactKind::Symbol || kind == ArtifactKind::Api || kind
                == ArtifactKind::Schema,
            ReferenceRelation::Consumes => kind == ArtifactKind::Api || kind == ArtifactKind::Schema,
            ReferenceRelation::Validates => kind == ArtifactKind::Test,
            ReferenceRelation::Constrains => kind == ArtifactKind::Module || kind == ArtifactKind::Api || kind
                == ArtifactKind::Schema,
            ReferenceRelation::DependsOn => true,
        }
    }

    fn supports(self, kind: ArtifactKind) -> (allowed: bool)
        ensures
            allowed == self.allows(kind),
    {
        match self {
            ReferenceRelation::Implements => matches!(
                kind,
                ArtifactKind::Module | ArtifactKind::File | ArtifactKind::Symbol
            ),
            ReferenceRelation::Defines => matches!(
                kind,
                ArtifactKind::Symbol | ArtifactKind::Api | ArtifactKind::Schema
            ),
            ReferenceRelation::Consumes => matches!(kind, ArtifactKind::Api | ArtifactKind::Schema),
            ReferenceRelation::Validates => matches!(kind, ArtifactKind::Test),
            ReferenceRelation::Constrains => matches!(
                kind,
                ArtifactKind::Module | ArtifactKind::Api | ArtifactKind::Schema
            ),
            ReferenceRelation::DependsOn => true,
        }
    }
}

/// Caller-authored content for one persistent, non-authoritative engineering observation.
#[derive(Clone, Debug, PartialEq, Eq)]
pub struct EngineeringReferenceDraft {
    pub repository_id: RepositoryId,
    pub artifact_kind: ArtifactKind,
    pub relation: ReferenceRelation,
    pub locator: ArtifactLocator,
    pub supports: String,
    pub limitations: Vec<String>,
}

/// The model of [`EngineeringReferenceDraft`].
pub struct EngineeringReferenceDraftView {
    pub repository_id: Seq<char>,
    pub artifact_kind: ArtifactKind,
    pub relation: ReferenceRelation,
    pub locator: ArtifactLocatorView,
    pub supports: Seq<char>,
    pub limitations: Seq<Seq<char>>,
}

impl DeepView for EngineeringReferenceDraft {
    type V = EngineeringReferenceDraftView;

    open spec fn deep_view(&self) -> EngineeringReferenceDraftView {
        EngineeringReferenceDraftView {
            repository_id: self.repository_id.deep_view(),
            artifact_kind: self.artifact_kind.deep_view(),
            relation: self.relation.deep_view(),
            locator: self.locator.deep_view(),
            supports: self.supports.deep_view(),
            limitations: self.limitations.deep_view(),
        }
    }
}

impl Value for EngineeringReferenceDraft {
    fn copied(&self) -> (copy: Self) {
        EngineeringReferenceDraft {
            repository_id: self.repository_id.copied(),
            artifact_kind: self.artifact_kind.copied(),
            relation: self.relation.copied(),
            locator: self.locator.copied(),
            supports: self.supports.copied(),
            limitations: self.limitations.copied(),
        }
    }

    fn same(&self, other: &Self) -> (equal: bool) {
        self.repository_id.same(&other.repository_id)
            && self.artifact_kind.same(&other.artifact_kind)
            && self.relation.same(&other.relation)
            && self.locator.same(&other.locator)
            && self.supports.same(&other.supports)
            && self.limitations.same(&other.limitations)
    }
}

impl EngineeringReferenceDraftView {
    /// The JSON members, behind those of `body`.
    pub open spec fn json_members(self, body: Seq<char>) -> Seq<char> {
        let body = with_member(body, "repository_id"@, <RepositoryId as Json>::json(self.repository_id));
        let body = with_member(body, "artifact_kind"@, <ArtifactKind as Json>::json(self.artifact_kind));
        let body = with_member(body, "relation"@, <ReferenceRelation as Json>::json(self.relation));
        let body = with_member(body, "locator"@, <ArtifactLocator as Json>::json(self.locator));
        let body = with_member(body, "supports"@, <String as Json>::json(self.supports));
        let body = with_member(body, "limitations"@, <Vec<String> as Json>::json(self.limitations));
        body
    }
}

impl EngineeringReferenceDraft {
    fn push_members(&self, text: &mut String)
        ensures
            final(text)@ == self.deep_view().json_members(old(text)@),
    {
        push_member(text, "repository_id", &self.repository_id);
        push_member(text, "artifact_kind", &self.artifact_kind);
        push_member(text, "relation", &self.relation);
        push_member(text, "locator", &self.locator);
        push_member(text, "supports", &self.supports);
        push_member(text, "limitations", &self.limitations);
    }
}

impl Json for EngineeringReferenceDraft {
    open spec fn json(model: EngineeringReferenceDraftView) -> Seq<char> {
        object(model.json_members(Seq::<char>::empty()))
    }

    fn write_json(&self, out: &mut String) {
        let mut body = String::new();
        self.push_members(&mut body);
        push_object(out, body.as_str());
    }
}

/// Persistent, non-authoritative observation connecting Context to engineering coordinates.
#[derive(Clone, Debug, PartialEq, Eq)]
pub struct EngineeringReference {
    pub reference_id: ReferenceId,
    pub repository_id: RepositoryId,
    pub artifact_kind: ArtifactKind,
    pub relation: ReferenceRelation,
    pub locator: ArtifactLocator,
    pub supports: String,
    pub limitations: Vec<String>,
}

/// The model of [`EngineeringReference`].
pub struct EngineeringReferenceView {
    pub reference_id: ReferenceId,
    pub repository_id: Seq<char>,
    pub artifact_kind: ArtifactKind,
    pub relation: ReferenceRelation,
    pub locator: ArtifactLocatorView,
    pub supports: Seq<char>,
    pub limitations: Seq<Seq<char>>,
}

impl DeepView for EngineeringReference {
    type V = EngineeringReferenceView;

    open spec fn deep_view(&self) -> EngineeringReferenceView {
        EngineeringReferenceView {
            reference_id: self.reference_id.deep_view(),
            repository_id: self.repository_id.deep_view(),
            artifact_kind: self.artifact_kind.deep_view(),
            relation: self.relation.deep_view(),
            locator: self.locator.deep_view(),
            supports: self.supports.deep_view(),
            limitations: self.limitations.deep_view(),
        }
    }
}

impl Value for EngineeringReference {
    fn copied(&self) -> (copy: Self) {
        EngineeringReference {
            reference_id: self.reference_id.copied(),
            repository_id: self.repository_id.copied(),
            artifact_kind: self.artifact_kind.copied(),
            relation: self.relation.copied(),
            locator: self.locator.copied(),
            supports: self.supports.copied(),
            limitations: self.limitations.copied(),
        }
    }

    fn same(&self, other: &Self) -> (equal: bool) {
        self.reference_id.same(&other.reference_id)
            && self.repository_id.same(&other.repository_id)
            && self.artifact_kind.same(&other.artifact_kind)
            && self.relation.same(&other.relation)
            && self.locator.same(&other.locator)
            && self.supports.same(&other.supports)
            && self.limitations.same(&other.limitations)
    }
}

impl EngineeringReferenceView {
    /// The JSON members, behind those of `body`.
    pub open spec fn json_members(self, body: Seq<char>) -> Seq<char> {
        let body = with_member(body, "reference_id"@, <ReferenceId as Json>::json(self.reference_id));
        let body = with_member(body, "repository_id"@, <RepositoryId as Json>::json(self.repository_id));
        let body = with_member(body, "artifact_kind"@, <ArtifactKind as Json>::json(self.artifact_kind));
        let body = with_member(body, "relation"@, <ReferenceRelation as Json>::json(self.relation));
        let body = with_member(body, "locator"@, <ArtifactLocator as Json>::json(self.locator));
        let body = with_member(body, "supports"@, <String as Json>::json(self.supports));
        let body = with_member(body, "limitations"@, <Vec<String> as Json>::json(self.limitations));
        body
    }
}

impl EngineeringReference {
    fn push_members(&self, text: &mut String)
        ensures
            final(text)@ == self.deep_view().json_members(old(text)@),
    {
        push_member(text, "reference_id", &self.reference_id);
        push_member(text, "repository_id", &self.repository_id);
        push_member(text, "artifact_kind", &self.artifact_kind);
        push_member(text, "relation", &self.relation);
        push_member(text, "locator", &self.locator);
        push_member(text, "supports", &self.supports);
        push_member(text, "limitations", &self.limitations);
    }
}

impl Json for EngineeringReference {
    open spec fn json(model: EngineeringReferenceView) -> Seq<char> {
        object(model.json_members(Seq::<char>::empty()))
    }

    fn write_json(&self, out: &mut String) {
        let mut body = String::new();
        self.push_members(&mut body);
        push_object(out, body.as_str());
    }
}

impl EngineeringReferenceDraftView {
    /// Why an observation is invalid, if it is.
    pub open spec fn problem(self) -> Option<ErrorView> {
        first(
            given(
                !self.relation.allows(self.artifact_kind),
                invalid("engineering_reference relation is incompatible with artifact_kind"@),
            ),
            first(
                match self.locator.problem() {
                    Some(error) => invalid("engineering_reference locator is invalid: "@ + error.message),
                    None => None,
                },
                first(
                    given(
                        self.locator.kind() != self.artifact_kind,
                        invalid("engineering_reference artifact_kind must match locator kind"@),
                    ),
                    first(
                        text_problem(self.supports, "engineering_reference.supports"@),
                        text_items_problem(self.limitations, "engineering_reference.limitations"@),
                    ),
                ),
            ),
        )
    }

    /// The observation under an identity.
    pub open spec fn named(self, reference_id: ReferenceId) -> EngineeringReferenceView {
        EngineeringReferenceView {
            reference_id,
            repository_id: self.repository_id,
            artifact_kind: self.artifact_kind,
            relation: self.relation,
            locator: self.locator,
            supports: self.supports,
            limitations: self.limitations,
        }
    }
}

impl EngineeringReferenceView {
    /// The observation without its identity.
    pub open spec fn draft(self) -> EngineeringReferenceDraftView {
        EngineeringReferenceDraftView {
            repository_id: self.repository_id,
            artifact_kind: self.artifact_kind,
            relation: self.relation,
            locator: self.locator,
            supports: self.supports,
            limitations: self.limitations,
        }
    }
}

fn validate_reference_parts(
    artifact_kind: ArtifactKind,
    relation: ReferenceRelation,
    locator: &ArtifactLocator,
    supports: &str,
    limitations: &Vec<String>,
) -> (result: Result<()>)
    ensures
        forall|draft: EngineeringReferenceDraftView|
            draft.artifact_kind == artifact_kind && draft.relation == relation && draft.locator == locator.deep_view()
                && draft.supports == supports@ && draft.limitations == limitations.deep_view()
                ==> fails_as(result, #[trigger] draft.problem()),
{
    if !relation.supports(artifact_kind) {
        return Err(invalid_input("engineering_reference relation is incompatible with artifact_kind"));
    }
    match locator.validate() {
        Ok(_) => {},
        Err(error) => {
            let message = joined2("engineering_reference locator is invalid: ", error.message());
            return Err(invalid_input(message.as_str()));
        },
    }
    if locator.kind() != artifact_kind {
        return Err(invalid_input("engineering_reference artifact_kind must match locator kind"));
    }
    require_text(supports, "engineering_reference.supports")?;
    require_text_items(limitations, "engineering_reference.limitations")
}

impl EngineeringReferenceDraft {
    /// Validates relation compatibility, exact locator, and explanatory text.
    pub fn validate(&self) -> (result: Result<()>)
        ensures
            fails_as(result, self.deep_view().problem()),
    {
        validate_reference_parts(
            self.artifact_kind,
            self.relation,
            &self.locator,
            self.supports.as_str(),
            &self.limitations,
        )
    }
}

impl EngineeringReference {
    /// Generates a stable Reference identity for validated observation content.
    pub fn from_draft(draft: EngineeringReferenceDraft) -> (result: Result<Self>)
        ensures
            fails_as(result, draft.deep_view().problem()),
            result is Ok ==> result->Ok_0.deep_view().draft() == draft.deep_view()
                && result->Ok_0.reference_id.canonical(),
    {
        draft.validate()?;
        Ok(
            EngineeringReference {
                reference_id: ReferenceId::new(),
                repository_id: draft.repository_id,
                artifact_kind: draft.artifact_kind,
                relation: draft.relation,
                locator: draft.locator,
                supports: draft.supports,
                limitations: draft.limitations,
            },
        )
    }

    /// Validates relation compatibility and observation evidence.
    pub fn validate(&self) -> (result: Result<()>)
        ensures
            fails_as(result, self.deep_view().draft().problem()),
    {
        validate_reference_parts(
            self.artifact_kind,
            self.relation,
            &self.locator,
            self.supports.as_str(),
            &self.limitations,
        )
    }
}

/// One currently discovered engineering object; it is rebuildable derived state.
#[derive(Clone, Debug, PartialEq, Eq)]
pub struct EngineeringArtifact {
    pub repository: RepositoryIdentity,
    pub artifact_key: ArtifactKey,
    pub display_name: String,
}

/// The model of [`EngineeringArtifact`].
pub struct EngineeringArtifactView {
    pub repository: RepositoryIdentityView,
    pub artifact_key: ArtifactKeyView,
    pub display_name: Seq<char>,
}

impl DeepView for EngineeringArtifact {
    type V = EngineeringArtifactView;

    open spec fn deep_view(&self) -> EngineeringArtifactView {
        EngineeringArtifactView {
            repository: self.repository.deep_view(),
            artifact_key: self.artifact_key.deep_view(),
            display_name: self.display_name.deep_view(),
        }
    }
}

impl Value for EngineeringArtifact {
    fn copied(&self) -> (copy: Self) {
        EngineeringArtifact {
            repository: self.repository.copied(),
            artifact_key: self.artifact_key.copied(),
            display_name: self.display_name.copied(),
        }
    }

    fn same(&self, other: &Self) -> (equal: bool) {
        self.repository.same(&other.repository)
            && self.artifact_key.same(&other.artifact_key)
            && self.display_name.same(&other.display_name)
    }
}

impl EngineeringArtifactView {
    /// The JSON members, behind those of `body`.
    pub open spec fn json_members(self, body: Seq<char>) -> Seq<char> {
        let body = with_member(body, "repository"@, <RepositoryIdentity as Json>::json(self.repository));
        let body = with_member(body, "artifact_key"@, <ArtifactKey as Json>::json(self.artifact_key));
        let body = with_member(body, "display_name"@, <String as Json>::json(self.display_name));
        body
    }
}

impl EngineeringArtifact {
    fn push_members(&self, text: &mut String)
        ensures
            final(text)@ == self.deep_view().json_members(old(text)@),
    {
        push_member(text, "repository", &self.repository);
        push_member(text, "artifact_key", &self.artifact_key);
        push_member(text, "display_name", &self.display_name);
    }
}

impl Json for EngineeringArtifact {
    open spec fn json(model: EngineeringArtifactView) -> Seq<char> {
        object(model.json_members(Seq::<char>::empty()))
    }

    fn write_json(&self, out: &mut String) {
        let mut body = String::new();
        self.push_members(&mut body);
        push_object(out, body.as_str());
    }
}

impl EngineeringArtifactView {
    /// Why derived artifact state is invalid, if it is.
    pub open spec fn problem(self) -> Option<ErrorView> {
        first(
            self.repository.problem(),
            first(
                self.artifact_key.problem(),
                first(
                    text_problem(self.display_name, "engineering_artifact.display_name"@),
                    given(
                        self.repository.repository_id != self.artifact_key.repository_id,
                        invalid("engineering_artifact key and repository identity must match"@),
                    ),
                ),
            ),
        )
    }
}

impl EngineeringArtifact {
    /// Validates repository ownership and deterministic Artifact identity.
    pub fn validate(&self) -> (result: Result<()>)
        ensures
            fails_as(result, self.deep_view().problem()),
    {
        self.repository.validate()?;
        self.artifact_key.validate()?;
        require_text(self.display_name.as_str(), "engineering_artifact.display_name")?;
        let owner = self.artifact_key.repository_id();
        if !self.repository.repository_id.same(&owner) {
            return Err(invalid_input("engineering_artifact key and repository identity must match"));
        }
        Ok(())
    }
}

/// Current outcome of resolving a persistent reference against available code.
#[derive(Clone, Copy, Debug, PartialEq, Eq, Structural)]
pub enum ResolutionStatus {
    Resolved,
    Ambiguous,
    Missing,
    Unavailable,
}

impl DeepView for ResolutionStatus {
    type V = ResolutionStatus;

    open spec fn deep_view(&self) -> ResolutionStatus {
        *self
    }
}

impl Value for ResolutionStatus {
    fn copied(&self) -> (copy: Self) {
        *self
    }

    fn same(&self, other: &Self) -> (equal: bool) {
        *self == *other
    }
}

impl Json for ResolutionStatus {
    open spec fn json(model: ResolutionStatus) -> Seq<char> {
        match model {
            ResolutionStatus::Resolved => "\"resolved\""@,
            ResolutionStatus::Ambiguous => "\"ambiguous\""@,
            ResolutionStatus::Missing => "\"missing\""@,
            ResolutionStatus::Unavailable => "\"unavailable\""@,
        }
    }

    fn write_json(&self, out: &mut String) {
        match self {
            ResolutionStatus::Resolved => out.append("\"resolved\""),
            ResolutionStatus::Ambiguous => out.append("\"ambiguous\""),
            ResolutionStatus::Missing => out.append("\"missing\""),
            ResolutionStatus::Unavailable => out.append("\"unavailable\""),
        }
    }
}

/// The outcome of resolving one reference: the artifact it names, or the candidates it may name.
#[derive(Clone, Debug, PartialEq, Eq)]
pub struct ArtifactResolution {
    pub reference_id: ReferenceId,
    pub repository_id: RepositoryId,
    pub status: ResolutionStatus,
    pub resolved_artifact: Option<ArtifactKey>,
    pub candidates: Vec<ArtifactKey>,
    pub explanation: String,
}

/// The model of [`ArtifactResolution`].
pub struct ArtifactResolutionView {
    pub reference_id: ReferenceId,
    pub repository_id: Seq<char>,
    pub status: ResolutionStatus,
    pub resolved_artifact: Option<ArtifactKeyView>,
    pub candidates: Seq<ArtifactKeyView>,
    pub explanation: Seq<char>,
}

impl DeepView for ArtifactResolution {
    type V = ArtifactResolutionView;

    open spec fn deep_view(&self) -> ArtifactResolutionView {
        ArtifactResolutionView {
            reference_id: self.reference_id.deep_view(),
            repository_id: self.repository_id.deep_view(),
            status: self.status.deep_view(),
            resolved_artifact: self.resolved_artifact.deep_view(),
            candidates: self.candidates.deep_view(),
            explanation: self.explanation.deep_view(),
        }
    }
}

impl Value for ArtifactResolution {
    fn copied(&self) -> (copy: Self) {
        ArtifactResolution {
            reference_id: self.reference_id.copied(),
            repository_id: self.repository_id.copied(),
            status: self.status.copied(),
            resolved_artifact: self.resolved_artifact.copied(),
            candidates: self.candidates.copied(),
            explanation: self.explanation.copied(),
        }
    }

    fn same(&self, other: &Self) -> (equal: bool) {
        self.reference_id.same(&other.reference_id)
            && self.repository_id.same(&other.repository_id)
            && self.status.same(&other.status)
            && self.resolved_artifact.same(&other.resolved_artifact)
            && self.candidates.same(&other.candidates)
            && self.explanation.same(&other.explanation)
    }
}

impl ArtifactResolutionView {
    /// The JSON members, behind those of `body`.
    pub open spec fn json_members(self, body: Seq<char>) -> Seq<char> {
        let body = with_member(body, "reference_id"@, <ReferenceId as Json>::json(self.reference_id));
        let body = with_member(body, "repository_id"@, <RepositoryId as Json>::json(self.repository_id));
        let body = with_member(body, "status"@, <ResolutionStatus as Json>::json(self.status));
        let body = with_member(
            body,
            "resolved_artifact"@,
            <Option<ArtifactKey> as Json>::json(self.resolved_artifact),
        );
        let body = with_member(body, "candidates"@, <Vec<ArtifactKey> as Json>::json(self.candidates));
        let body = with_member(body, "explanation"@, <String as Json>::json(self.explanation));
        body
    }
}

impl ArtifactResolution {
    fn push_members(&self, text: &mut String)
        ensures
            final(text)@ == self.deep_view().json_members(old(text)@),
    {
        push_member(text, "reference_id", &self.reference_id);
        push_member(text, "repository_id", &self.repository_id);
        push_member(text, "status", &self.status);
        push_member(text, "resolved_artifact", &self.resolved_artifact);
        push_member(text, "candidates", &self.candidates);
        push_member(text, "explanation", &self.explanation);
    }
}

impl Json for ArtifactResolution {
    open spec fn json(model: ArtifactResolutionView) -> Seq<char> {
        object(model.json_members(Seq::<char>::empty()))
    }

    fn write_json(&self, out: &mut String) {
        let mut body = String::new();
        self.push_members(&mut body);
        push_object(out, body.as_str());
    }
}

impl ArtifactResolutionView {
    /// Why one candidate is invalid, given those before it.
    pub open spec fn candidate_problem(self) -> spec_fn(int) -> Option<ErrorView> {
        |i: int|
            first(
                self.candidates[i].problem(),
                first(
                    given(
                        self.candidates[i].repository_id != self.repository_id,
                        invalid("artifact_resolution candidates must share its repository identity"@),
                    ),
                    given(
                        self.candidates.take(i).contains(self.candidates[i]),
                        invalid("artifact_resolution candidates must not contain duplicates"@),
                    ),
                ),
            )
    }

    /// Whether the artifact fields have the shape that the status calls for.
    pub open spec fn has_valid_shape(self) -> bool {
        match self.status {
            ResolutionStatus::Resolved => self.resolved_artifact is Some && self.candidates.len() == 1
                && self.resolved_artifact == Some(self.candidates[0]),
            ResolutionStatus::Ambiguous => self.resolved_artifact is None && self.candidates.len() > 0,
            ResolutionStatus::Missing => self.resolved_artifact is None && self.candidates.len() == 0,
            ResolutionStatus::Unavailable => self.resolved_artifact is None && self.candidates.len() == 0,
        }
    }

    /// Why a resolution is invalid, if it is.
    pub open spec fn problem(self) -> Option<ErrorView> {
        first(
            text_problem(self.explanation, "artifact_resolution.explanation"@),
            first(
                first_from(self.candidate_problem(), 0, self.candidates.len()),
                first(
                    match self.resolved_artifact {
                        Some(artifact) => first(
                            artifact.problem(),
                            given(
                                artifact.repository_id != self.repository_id,
                                invalid("artifact_resolution resolved artifact must share its repository identity"@),
                            ),
                        ),
                        None => None,
                    },
                    given(
                        !self.has_valid_shape(),
                        invalid("artifact_resolution status is incompatible with artifact fields"@),
                    ),
                ),
            ),
        )
    }
}

impl ArtifactResolution {
    fn validate_candidates(&self) -> (result: Result<()>)
        ensures
            fails_as(
                result,
                first_from(self.deep_view().candidate_problem(), 0, self.deep_view().candidates.len()),
            ),
    {
        let ghost model = self.deep_view();
        let ghost problem = model.candidate_problem();
        let mut index: usize = 0;
        while index < self.candidates.len()
            invariant
                index <= self.candidates@.len(),
                model == self.deep_view(),
                problem == model.candidate_problem(),
                first_from(problem, 0, self.candidates@.len()) == first_from(
                    problem,
                    index as nat,
                    self.candidates@.len(),
                ),
            decreases self.candidates@.len() - index,
        {
            let candidate = &self.candidates[index];
            assert(candidate.deep_view() == model.candidates[index as int]);
            candidate.validate()?;
            let owner = candidate.repository_id();
            if !owner.same(&self.repository_id) {
                return Err(invalid_input("artifact_resolution candidates must share its repository identity"));
            }
            let mut earlier: usize = 0;
            while earlier < index
                invariant
                    earlier <= index < self.candidates@.len(),
                    model == self.deep_view(),
                    candidate.deep_view() == model.candidates[index as int],
                    problem == model.candidate_problem(),
                    candidate.deep_view().problem() is None,
                    candidate.deep_view().repository_id == model.repository_id,
                    first_from(problem, 0, self.candidates@.len()) == first_from(
                        problem,
                        index as nat,
                        self.candidates@.len(),
                    ),
                    forall|i: int| 0 <= i < earlier ==> model.candidates[i] != candidate.deep_view(),
                decreases index - earlier,
            {
                assert(self.candidates@[earlier as int].deep_view() == model.candidates[earlier as int]);
                if self.candidates[earlier].same(candidate) {
                    assert(model.candidates.take(index as int)[earlier as int] == candidate.deep_view());
                    return Err(invalid_input("artifact_resolution candidates must not contain duplicates"));
                }
                earlier = earlier + 1;
            }
            assert(!model.candidates.take(index as int).contains(candidate.deep_view()));
            index = index + 1;
        }
        Ok(())
    }

    /// Validates repository consistency and the selected `ResolutionStatus` shape.
    pub fn validate(&self) -> (result: Result<()>)
        ensures
            fails_as(result, self.deep_view().problem()),
    {
        require_text(self.explanation.as_str(), "artifact_resolution.explanation")?;
        self.validate_candidates()?;
        if let Some(artifact) = &self.resolved_artifact {
            artifact.validate()?;
            let owner = artifact.repository_id();
            if !owner.same(&self.repository_id) {
                return Err(
                    invalid_input("artifact_resolution resolved artifact must share its repository identity"),
                );
            }
        }
        let valid_shape = match self.status {
            ResolutionStatus::Resolved => match &self.resolved_artifact {
                Some(artifact) => self.candidates.len() == 1 && artifact.same(&self.candidates[0]),
                None => false,
            },
            ResolutionStatus::Ambiguous => self.resolved_artifact.is_none() && self.candidates.len() > 0,
            ResolutionStatus::Missing | ResolutionStatus::Unavailable => self.resolved_artifact.is_none()
                && self.candidates.len() == 0,
        };
        if !valid_shape {
            return Err(invalid_input("artifact_resolution status is incompatible with artifact fields"));
        }
        Ok(())
    }
}

/// How a Context uses one resolved Artifact.
#[derive(Clone, Copy, Debug, PartialEq, Eq, Structural)]
pub enum ArtifactAssociationKind {
    Implements,
    DefinesContract,
    Uses,
    ValidatedBy,
    ConstrainedBy,
}

impl DeepView for ArtifactAssociationKind {
    type V = ArtifactAssociationKind;

    open spec fn deep_view(&self) -> ArtifactAssociationKind {
        *self
    }
}

impl Value for ArtifactAssociationKind {
    fn copied(&self) -> (copy: Self) {
        *self
    }

    fn same(&self, other: &Self) -> (equal: bool) {
        *self == *other
    }
}

impl Json for ArtifactAssociationKind {
    open spec fn json(model: ArtifactAssociationKind) -> Seq<char> {
        match model {
            ArtifactAssociationKind::Implements => "\"implements\""@,
            ArtifactAssociationKind::DefinesContract => "\"defines_contract\""@,
            ArtifactAssociationKind::Uses => "\"uses\""@,
            ArtifactAssociationKind::ValidatedBy => "\"validated_by\""@,
            ArtifactAssociationKind::ConstrainedBy => "\"constrained_by\""@,
        }
    }

    fn write_json(&self, out: &mut String) {
        match self {
            ArtifactAssociationKind::Implements => out.append("\"implements\""),
            ArtifactAssociationKind::DefinesContract => out.append("\"defines_contract\""),
            ArtifactAssociationKind::Uses => out.append("\"uses\""),
            ArtifactAssociationKind::ValidatedBy => out.append("\"validated_by\""),
            ArtifactAssociationKind::ConstrainedBy => out.append("\"constrained_by\""),
        }
    }
}

impl ArtifactAssociationKind {
    /// The artifact kinds that an association may join.
    pub open spec fn allows(self, kind: ArtifactKind) -> bool {
        match self {
            ArtifactAssociationKind::Implements => kind == ArtifactKind::Module || kind == ArtifactKind::File || kind
                == ArtifactKind::Symbol,
            ArtifactAssociationKind::DefinesContract => kind == ArtifactKind::Api || kind == ArtifactKind::Schema,
            ArtifactAssociationKind::Uses => true,
            ArtifactAssociationKind::ValidatedBy => kind == ArtifactKind::Test,
            ArtifactAssociationKind::ConstrainedBy => kind == ArtifactKind::Module || kind == ArtifactKind::Api || kind
                == ArtifactKind::Schema,
        }
    }

    fn supports(self, kind: ArtifactKind) -> (allowed: bool)
        ensures
            allowed == self.allows(kind),
    {
        match self {
            ArtifactAssociationKind::Implements => matches!(
                kind,
                ArtifactKind::Module | ArtifactKind::File | ArtifactKind::Symbol
            ),
            ArtifactAssociationKind::DefinesContract => matches!(kind, ArtifactKind::Api | ArtifactKind::Schema),
            ArtifactAssociationKind::Uses => true,
            ArtifactAssociationKind::ValidatedBy => matches!(kind, ArtifactKind::Test),
            ArtifactAssociationKind::ConstrainedBy => matches!(
                kind,
                ArtifactKind::Module | ArtifactKind::Api | ArtifactKind::Schema
            ),
        }
    }
}

/// The bits of an IEEE 754 double that is above zero and at most one.
pub open spec fn is_positive_fraction(bits: u64) -> bool {
    1 <= bits <= 0x3ff0_0000_0000_0000
}

/// Derived, rebuildable link between Context and one resolved Artifact.
#[derive(Clone, Debug, PartialEq, Eq)]
pub struct ContextArtifactAssociation {
    pub context_id: ContextId,
    pub revision_id: RevisionId,
    pub artifact_key: ArtifactKey,
    pub kind: ArtifactAssociationKind,
    pub source_reference_ids: Vec<ReferenceId>,
    /// The confidence, as the bits of an IEEE 754 double.
    pub confidence_bits: u64,
    pub explanation: String,
}

/// The model of [`ContextArtifactAssociation`].
pub struct ContextArtifactAssociationView {
    pub context_id: ContextId,
    pub revision_id: RevisionId,
    pub artifact_key: ArtifactKeyView,
    pub kind: ArtifactAssociationKind,
    pub source_reference_ids: Seq<ReferenceId>,
    pub confidence_bits: u64,
    pub explanation: Seq<char>,
}

impl DeepView for ContextArtifactAssociation {
    type V = ContextArtifactAssociationView;

    open spec fn deep_view(&self) -> ContextArtifactAssociationView {
        ContextArtifactAssociationView {
            context_id: self.context_id.deep_view(),
            revision_id: self.revision_id.deep_view(),
            artifact_key: self.artifact_key.deep_view(),
            kind: self.kind.deep_view(),
            source_reference_ids: self.source_reference_ids.deep_view(),
            confidence_bits: self.confidence_bits.deep_view(),
            explanation: self.explanation.deep_view(),
        }
    }
}

impl Value for ContextArtifactAssociation {
    fn copied(&self) -> (copy: Self) {
        ContextArtifactAssociation {
            context_id: self.context_id.copied(),
            revision_id: self.revision_id.copied(),
            artifact_key: self.artifact_key.copied(),
            kind: self.kind.copied(),
            source_reference_ids: self.source_reference_ids.copied(),
            confidence_bits: self.confidence_bits.copied(),
            explanation: self.explanation.copied(),
        }
    }

    fn same(&self, other: &Self) -> (equal: bool) {
        self.context_id.same(&other.context_id)
            && self.revision_id.same(&other.revision_id)
            && self.artifact_key.same(&other.artifact_key)
            && self.kind.same(&other.kind)
            && self.source_reference_ids.same(&other.source_reference_ids)
            && self.confidence_bits.same(&other.confidence_bits)
            && self.explanation.same(&other.explanation)
    }
}

impl ContextArtifactAssociationView {
    /// Why an association is invalid, if it is.
    pub open spec fn problem(self) -> Option<ErrorView> {
        first(
            self.artifact_key.problem(),
            first(
                given(
                    !self.kind.allows(self.artifact_key.locator.kind()),
                    invalid("context_artifact_association kind is incompatible with ArtifactKind"@),
                ),
                first(
                    given(
                        !is_positive_fraction(self.confidence_bits),
                        invalid("context_artifact_association confidence must be finite and in (0, 1]"@),
                    ),
                    first(
                        given(
                            self.source_reference_ids.len() == 0,
                            invalid("context_artifact_association requires at least one source ReferenceId"@),
                        ),
                        first(
                            given(
                                !self.source_reference_ids.no_duplicates(),
                                invalid("context_artifact_association source references must be unique"@),
                            ),
                            text_problem(self.explanation, "context_artifact_association.explanation"@),
                        ),
                    ),
                ),
            ),
        )
    }
}

impl ContextArtifactAssociation {
    /// Validates Artifact compatibility, confidence, sources, and explanation.
    pub fn validate(&self) -> (result: Result<()>)
        ensures
            fails_as(result, self.deep_view().problem()),
    {
        self.artifact_key.validate()?;
        if !self.kind.supports(self.artifact_key.kind()) {
            return Err(invalid_input("context_artifact_association kind is incompatible with ArtifactKind"));
        }
        if self.confidence_bits < 1 || self.confidence_bits > 0x3ff0_0000_0000_0000 {
            return Err(invalid_input("context_artifact_association confidence must be finite and in (0, 1]"));
        }
        if self.source_reference_ids.len() == 0 {
            return Err(invalid_input("context_artifact_association requires at least one source ReferenceId"));
        }
        if !all_distinct(&self.source_reference_ids) {
            return Err(invalid_input("context_artifact_association source references must be unique"));
        }
        require_text(self.explanation.as_str(), "context_artifact_association.explanation")
    }
}

/// Stable knowledge edge between two Context revisions.
#[derive(Clone, Copy, Debug, PartialEq, Eq, Structural, PartialOrd, Ord, Hash)]
pub enum ContextRelationKind {
    DependsOn,
    Constrains,
    Implements,
    ValidatedBy,
    Contradicts,
    /// This revision replaces the target Context. The target keeps its accepted facts; only
    /// the local projection derives a superseded state from this edge.
    Supersedes,
    RelatedTo,
}

impl DeepView for ContextRelationKind {
    type V = ContextRelationKind;

    open spec fn deep_view(&self) -> ContextRelationKind {
        *self
    }
}

impl Value for ContextRelationKind {
    fn copied(&self) -> (copy: Self) {
        *self
    }

    fn same(&self, other: &Self) -> (equal: bool) {
        *self == *other
    }
}

impl Json for ContextRelationKind {
    open spec fn json(model: ContextRelationKind) -> Seq<char> {
        match model {
            ContextRelationKind::DependsOn => "\"depends_on\""@,
            ContextRelationKind::Constrains => "\"constrains\""@,
            ContextRelationKind::Implements => "\"implements\""@,
            ContextRelationKind::ValidatedBy => "\"validated_by\""@,
            ContextRelationKind::Contradicts => "\"contradicts\""@,
            ContextRelationKind::Supersedes => "\"supersedes\""@,
            ContextRelationKind::RelatedTo => "\"related_to\""@,
        }
    }

    fn write_json(&self, out: &mut String) {
        match self {
            ContextRelationKind::DependsOn => out.append("\"depends_on\""),
            ContextRelationKind::Constrains => out.append("\"constrains\""),
            ContextRelationKind::Implements => out.append("\"implements\""),
            ContextRelationKind::ValidatedBy => out.append("\"validated_by\""),
            ContextRelationKind::Contradicts => out.append("\"contradicts\""),
            ContextRelationKind::Supersedes => out.append("\"supersedes\""),
            ContextRelationKind::RelatedTo => out.append("\"related_to\""),
        }
    }
}

/// One stable edge from a Context revision to another Context.
#[derive(Clone, Debug, PartialEq, Eq)]
pub struct ContextRelation {
    pub target_context_id: ContextId,
    pub kind: ContextRelationKind,
    pub rationale: String,
    pub supports: Vec<String>,
}

/// The model of [`ContextRelation`].
pub struct ContextRelationView {
    pub target_context_id: ContextId,
    pub kind: ContextRelationKind,
    pub rationale: Seq<char>,
    pub supports: Seq<Seq<char>>,
}

impl DeepView for ContextRelation {
    type V = ContextRelationView;

    open spec fn deep_view(&self) -> ContextRelationView {
        ContextRelationView {
            target_context_id: self.target_context_id.deep_view(),
            kind: self.kind.deep_view(),
            rationale: self.rationale.deep_view(),
            supports: self.supports.deep_view(),
        }
    }
}

impl Value for ContextRelation {
    fn copied(&self) -> (copy: Self) {
        ContextRelation {
            target_context_id: self.target_context_id.copied(),
            kind: self.kind.copied(),
            rationale: self.rationale.copied(),
            supports: self.supports.copied(),
        }
    }

    fn same(&self, other: &Self) -> (equal: bool) {
        self.target_context_id.same(&other.target_context_id)
            && self.kind.same(&other.kind)
            && self.rationale.same(&other.rationale)
            && self.supports.same(&other.supports)
    }
}

impl ContextRelationView {
    /// The JSON members, behind those of `body`.
    pub open spec fn json_members(self, body: Seq<char>) -> Seq<char> {
        let body = with_member(body, "target_context_id"@, <ContextId as Json>::json(self.target_context_id));
        let body = with_member(body, "kind"@, <ContextRelationKind as Json>::json(self.kind));
        let body = with_member(body, "rationale"@, <String as Json>::json(self.rationale));
        let body = with_member(body, "supports"@, <Vec<String> as Json>::json(self.supports));
        body
    }
}

impl ContextRelation {
    fn push_members(&self, text: &mut String)
        ensures
            final(text)@ == self.deep_view().json_members(old(text)@),
    {
        push_member(text, "target_context_id", &self.target_context_id);
        push_member(text, "kind", &self.kind);
        push_member(text, "rationale", &self.rationale);
        push_member(text, "supports", &self.supports);
    }
}

impl Json for ContextRelation {
    open spec fn json(model: ContextRelationView) -> Seq<char> {
        object(model.json_members(Seq::<char>::empty()))
    }

    fn write_json(&self, out: &mut String) {
        let mut body = String::new();
        self.push_members(&mut body);
        push_object(out, body.as_str());
    }
}

impl ContextRelationView {
    /// Why a relation is invalid, if it is.
    pub open spec fn problem(self) -> Option<ErrorView> {
        first(
            text_problem(self.rationale, "context_relation.rationale"@),
            first(
                given(
                    self.supports.len() == 0,
                    invalid("context_relation.supports must contain at least one statement"@),
                ),
                first(
                    text_items_problem(self.supports, "context_relation.supports"@),
                    given(
                        !self.supports.no_duplicates(),
                        invalid("context_relation.supports must not contain duplicates"@),
                    ),
                ),
            ),
        )
    }
}

impl ContextRelation {
    /// Validates one stable Context edge without performing cycle detection.
    pub fn validate(&self) -> (result: Result<()>)
        ensures
            fails_as(result, self.deep_view().problem()),
    {
        require_text(self.rationale.as_str(), "context_relation.rationale")?;
        if self.supports.len() == 0 {
            return Err(invalid_input("context_relation.supports must contain at least one statement"));
        }
        require_text_items(&self.supports, "context_relation.supports")?;
        if !all_distinct(&self.supports) {
            return Err(invalid_input("context_relation.supports must not contain duplicates"));
        }
        Ok(())
    }
}

/// Derived Engineering Graph edge kinds.
#[derive(Clone, Copy, Debug, PartialEq, Eq, Structural)]
pub enum ArtifactRelationKind {
    Contains,
    Defines,
    Calls,
    Consumes,
    Produces,
    Validates,
    Implements,
    DependsOn,
}

impl DeepView for ArtifactRelationKind {
    type V = ArtifactRelationKind;

    open spec fn deep_view(&self) -> ArtifactRelationKind {
        *self
    }
}

impl Value for ArtifactRelationKind {
    fn copied(&self) -> (copy: Self) {
        *self
    }

    fn same(&self, other: &Self) -> (equal: bool) {
        *self == *other
    }
}

impl Json for ArtifactRelationKind {
    open spec fn json(model: ArtifactRelationKind) -> Seq<char> {
        match model {
            ArtifactRelationKind::Contains => "\"contains\""@,
            ArtifactRelationKind::Defines => "\"defines\""@,
            ArtifactRelationKind::Calls => "\"calls\""@,
            ArtifactRelationKind::Consumes => "\"consumes\""@,
            ArtifactRelationKind::Produces => "\"produces\""@,
            ArtifactRelationKind::Validates => "\"validates\""@,
            ArtifactRelationKind::Implements => "\"implements\""@,
            ArtifactRelationKind::DependsOn => "\"depends_on\""@,
        }
    }

    fn write_json(&self, out: &mut String) {
        match self {
            ArtifactRelationKind::Contains => out.append("\"contains\""),
            ArtifactRelationKind::Defines => out.append("\"defines\""),
            ArtifactRelationKind::Calls => out.append("\"calls\""),
            ArtifactRelationKind::Consumes => out.append("\"consumes\""),
            ArtifactRelationKind::Produces => out.append("\"produces\""),
            ArtifactRelationKind::Validates => out.append("\"validates\""),
            ArtifactRelationKind::Implements => out.append("\"implements\""),
            ArtifactRelationKind::DependsOn => out.append("\"depends_on\""),
        }
    }
}

/// One rebuildable edge between `EngineeringArtifacts`.
#[derive(Clone, Debug, PartialEq, Eq)]
pub struct EngineeringGraphEdge {
    pub source: ArtifactKey,
    pub target: ArtifactKey,
    pub kind: ArtifactRelationKind,
    pub explanation: String,
}

/// The model of [`EngineeringGraphEdge`].
pub struct EngineeringGraphEdgeView {
    pub source: ArtifactKeyView,
    pub target: ArtifactKeyView,
    pub kind: ArtifactRelationKind,
    pub explanation: Seq<char>,
}

impl DeepView for EngineeringGraphEdge {
    type V = EngineeringGraphEdgeView;

    open spec fn deep_view(&self) -> EngineeringGraphEdgeView {
        EngineeringGraphEdgeView {
            source: self.source.deep_view(),
            target: self.target.deep_view(),
            kind: self.kind.deep_view(),
            explanation: self.explanation.deep_view(),
        }
    }
}

impl Value for EngineeringGraphEdge {
    fn copied(&self) -> (copy: Self) {
        EngineeringGraphEdge {
            source: self.source.copied(),
            target: self.target.copied(),
            kind: self.kind.copied(),
            explanation: self.explanation.copied(),
        }
    }

    fn same(&self, other: &Self) -> (equal: bool) {
        self.source.same(&other.source)
            && self.target.same(&other.target)
            && self.kind.same(&other.kind)
            && self.explanation.same(&other.explanation)
    }
}

impl EngineeringGraphEdgeView {
    /// The JSON members, behind those of `body`.
    pub open spec fn json_members(self, body: Seq<char>) -> Seq<char> {
        let body = with_member(body, "source"@, <ArtifactKey as Json>::json(self.source));
        let body = with_member(body, "target"@, <ArtifactKey as Json>::json(self.target));
        let body = with_member(body, "kind"@, <ArtifactRelationKind as Json>::json(self.kind));
        let body = with_member(body, "explanation"@, <String as Json>::json(self.explanation));
        body
    }
}

impl EngineeringGraphEdge {
    fn push_members(&self, text: &mut String)
        ensures
            final(text)@ == self.deep_view().json_members(old(text)@),
    {
        push_member(text, "source", &self.source);
        push_member(text, "target", &self.target);
        push_member(text, "kind", &self.kind);
        push_member(text, "explanation", &self.explanation);
    }
}

impl Json for EngineeringGraphEdge {
    open spec fn json(model: EngineeringGraphEdgeView) -> Seq<char> {
        object(model.json_members(Seq::<char>::empty()))
    }

    fn write_json(&self, out: &mut String) {
        let mut body = String::new();
        self.push_members(&mut body);
        push_object(out, body.as_str());
    }
}

/// A module, file or symbol.
pub open spec fn is_code(kind: ArtifactKind) -> bool {
    kind == ArtifactKind::Module || kind == ArtifactKind::File || kind == ArtifactKind::Symbol
}

/// An API or a schema.
pub open spec fn is_contract(kind: ArtifactKind) -> bool {
    kind == ArtifactKind::Api || kind == ArtifactKind::Schema
}

impl EngineeringGraphEdgeView {
    /// Whether the endpoints are of kinds that the edge may join.
    pub open spec fn joins_compatible_kinds(self) -> bool {
        let source = self.source.locator.kind();
        let target = self.target.locator.kind();
        match self.kind {
            ArtifactRelationKind::Contains => self.source.repository_id == self.target.repository_id && source
                == ArtifactKind::Module,
            ArtifactRelationKind::Defines => self.source.repository_id == self.target.repository_id && (source
                == ArtifactKind::Module || source == ArtifactKind::File) && (target == ArtifactKind::Symbol
                || is_contract(target)),
            ArtifactRelationKind::Calls => source == ArtifactKind::Symbol && (target == ArtifactKind::Symbol || target
                == ArtifactKind::Api),
            ArtifactRelationKind::Consumes => is_code(source) && is_contract(target),
            ArtifactRelationKind::Produces => is_code(source) && is_contract(target),
            ArtifactRelationKind::Validates => source == ArtifactKind::Test,
            ArtifactRelationKind::Implements => is_code(source) && is_contract(target),
            ArtifactRelationKind::DependsOn => true,
        }
    }

    /// Why an edge is invalid, if it is.
    pub open spec fn problem(self) -> Option<ErrorView> {
        first(
            self.source.problem(),
            first(
                self.target.problem(),
                first(
                    given(
                        self.source == self.target,
                        invalid("engineering graph edge cannot be self-referential"@),
                    ),
                    first(
                        given(
                            !self.joins_compatible_kinds(),
                            invalid("engineering graph edge kind is incompatible with source/target Artifacts"@),
                        ),
                        text_problem(self.explanation, "engineering_graph_edge.explanation"@),
                    ),
                ),
            ),
        )
    }
}

impl EngineeringGraphEdge {
    /// Validates one typed graph edge without performing cycle detection.
    pub fn validate(&self) -> (result: Result<()>)
        ensures
            fails_as(result, self.deep_view().problem()),
    {
        self.source.validate()?;
        self.target.validate()?;
        if self.source.same(&self.target) {
            return Err(invalid_input("engineering graph edge cannot be self-referential"));
        }
        let source_owner = self.source.repository_id();
        let target_owner = self.target.repository_id();
        let source = self.source.kind();
        let target = self.target.kind();
        let code = matches!(source, ArtifactKind::Module | ArtifactKind::File | ArtifactKind::Symbol);
        let contract = matches!(target, ArtifactKind::Api | ArtifactKind::Schema);
        let compatible = match self.kind {
            ArtifactRelationKind::Contains => source_owner.same(&target_owner) && source == ArtifactKind::Module,
            ArtifactRelationKind::Defines => source_owner.same(&target_owner) && matches!(
                source,
                ArtifactKind::Module | ArtifactKind::File
            ) && (target == ArtifactKind::Symbol || contract),
            ArtifactRelationKind::Calls => source == ArtifactKind::Symbol && matches!(
                target,
                ArtifactKind::Symbol | ArtifactKind::Api
            ),
            ArtifactRelationKind::Consumes | ArtifactRelationKind::Produces | ArtifactRelationKind::Implements => code
                && contract,
            ArtifactRelationKind::Validates => source == ArtifactKind::Test,
            ArtifactRelationKind::DependsOn => true,
        };
        if !compatible {
            return Err(invalid_input("engineering graph edge kind is incompatible with source/target Artifacts"));
        }
        require_text(self.explanation.as_str(), "engineering_graph_edge.explanation")
    }
}

/// The JSON text of [`RepositoryIdentity`] writes every field of it under its own name.
pub proof fn repository_identity_json_writes_every_field(model: RepositoryIdentityView)
    ensures
        writes(
            <RepositoryIdentity as Json>::json(model),
            "repository_id"@,
            <RepositoryId as Json>::json(model.repository_id),
        ),
        writes(
            <RepositoryIdentity as Json>::json(model),
            "canonical_name"@,
            <String as Json>::json(model.canonical_name),
        ),
{
    let b0 = Seq::<char>::empty();
    let b1 = with_member(b0, "repository_id"@, <RepositoryId as Json>::json(model.repository_id));
    members_are_written(b0, "repository_id"@, <RepositoryId as Json>::json(model.repository_id));
    let b2 = with_member(b1, "canonical_name"@, <String as Json>::json(model.canonical_name));
    members_are_written(b1, "canonical_name"@, <String as Json>::json(model.canonical_name));
    assert(model.json_members(b0) == b2);
    objects_write_their_body(b2);
}

/// The JSON text of [`ResolvedFocus`] writes every field of it under its own name.
pub proof fn resolved_focus_json_writes_every_field(model: ResolvedFocusView)
    ensures
        writes(
            <ResolvedFocus as Json>::json(model),
            "repository_id"@,
            <RepositoryId as Json>::json(model.repository_id),
        ),
        writes(<ResolvedFocus as Json>::json(model), "locator"@, <ArtifactLocator as Json>::json(model.locator)),
{
    let b0 = Seq::<char>::empty();
    let b1 = with_member(b0, "repository_id"@, <RepositoryId as Json>::json(model.repository_id));
    members_are_written(b0, "repository_id"@, <RepositoryId as Json>::json(model.repository_id));
    let b2 = with_member(b1, "locator"@, <ArtifactLocator as Json>::json(model.locator));
    members_are_written(b1, "locator"@, <ArtifactLocator as Json>::json(model.locator));
    assert(model.json_members(b0) == b2);
    objects_write_their_body(b2);
}

/// The JSON text of [`ArtifactKey`] writes every field of it under its own name.
pub proof fn artifact_key_json_writes_every_field(model: ArtifactKeyView)
    ensures
        writes(
            <ArtifactKey as Json>::json(model),
            "repository_id"@,
            <RepositoryId as Json>::json(model.repository_id),
        ),
        writes(<ArtifactKey as Json>::json(model), "locator"@, <ArtifactLocator as Json>::json(model.locator)),
        writes(<ArtifactKey as Json>::json(model), "digest"@, <String as Json>::json(model.digest)),
{
    let b0 = Seq::<char>::empty();
    let b1 = with_member(b0, "repository_id"@, <RepositoryId as Json>::json(model.repository_id));
    members_are_written(b0, "repository_id"@, <RepositoryId as Json>::json(model.repository_id));
    let b2 = with_member(b1, "locator"@, <ArtifactLocator as Json>::json(model.locator));
    members_are_written(b1, "locator"@, <ArtifactLocator as Json>::json(model.locator));
    let b3 = with_member(b2, "digest"@, <String as Json>::json(model.digest));
    members_are_written(b2, "digest"@, <String as Json>::json(model.digest));
    assert(model.json_members(b0) == b3);
    objects_write_their_body(b3);
}

/// The JSON text of [`EngineeringReferenceDraft`] writes every field of it under its own name.
pub proof fn engineering_reference_draft_json_writes_every_field(model: EngineeringReferenceDraftView)
    ensures
        writes(
            <EngineeringReferenceDraft as Json>::json(model),
            "repository_id"@,
            <RepositoryId as Json>::json(model.repository_id),
        ),
        writes(
            <EngineeringReferenceDraft as Json>::json(model),
            "artifact_kind"@,
            <ArtifactKind as Json>::json(model.artifact_kind),
        ),
        writes(
            <EngineeringReferenceDraft as Json>::json(model),
            "relation"@,
            <ReferenceRelation as Json>::json(model.relation),
        ),
        writes(
            <EngineeringReferenceDraft as Json>::json(model),
            "locator"@,
            <ArtifactLocator as Json>::json(model.locator),
        ),
        writes(<EngineeringReferenceDraft as Json>::json(model), "supports"@, <String as Json>::json(model.supports)),
        writes(
            <EngineeringReferenceDraft as Json>::json(model),
            "limitations"@,
            <Vec<String> as Json>::json(model.limitations),
        ),
{
    let b0 = Seq::<char>::empty();
    let b1 = with_member(b0, "repository_id"@, <RepositoryId as Json>::json(model.repository_id));
    members_are_written(b0, "repository_id"@, <RepositoryId as Json>::json(model.repository_id));
    let b2 = with_member(b1, "artifact_kind"@, <ArtifactKind as Json>::json(model.artifact_kind));
    members_are_written(b1, "artifact_kind"@, <ArtifactKind as Json>::json(model.artifact_kind));
    let b3 = with_member(b2, "relation"@, <ReferenceRelation as Json>::json(model.relation));
    members_are_written(b2, "relation"@, <ReferenceRelation as Json>::json(model.relation));
    let b4 = with_member(b3, "locator"@, <ArtifactLocator as Json>::json(model.locator));
    members_are_written(b3, "locator"@, <ArtifactLocator as Json>::json(model.locator));
    let b5 = with_member(b4, "supports"@, <String as Json>::json(model.supports));
    members_are_written(b4, "supports"@, <String as Json>::json(model.supports));
    let b6 = with_member(b5, "limitations"@, <Vec<String> as Json>::json(model.limitations));
    members_are_written(b5, "limitations"@, <Vec<String> as Json>::json(model.limitations));
    assert(model.json_members(b0) == b6);
    objects_write_their_body(b6);
}

/// The JSON text of [`EngineeringReference`] writes every field of it under its own name.
pub proof fn engineering_reference_json_writes_every_field(model: EngineeringReferenceView)
    ensures
        writes(
            <EngineeringReference as Json>::json(model),
            "reference_id"@,
            <ReferenceId as Json>::json(model.reference_id),
        ),
        writes(
            <EngineeringReference as Json>::json(model),
            "repository_id"@,
            <RepositoryId as Json>::json(model.repository_id),
        ),
        writes(
            <EngineeringReference as Json>::json(model),
            "artifact_kind"@,
            <ArtifactKind as Json>::json(model.artifact_kind),
        ),
        writes(
            <EngineeringReference as Json>::json(model),
            "relation"@,
            <ReferenceRelation as Json>::json(model.relation),
        ),
        writes(
            <EngineeringReference as Json>::json(model),
            "locator"@,
            <ArtifactLocator as Json>::json(model.locator),
        ),
        writes(<EngineeringReference as Json>::json(model), "supports"@, <String as Json>::json(model.supports)),
        writes(
            <EngineeringReference as Json>::json(model),
            "limitations"@,
            <Vec<String> as Json>::json(model.limitations),
        ),
{
    let b0 = Seq::<char>::empty();
    let b1 = with_member(b0, "reference_id"@, <ReferenceId as Json>::json(model.reference_id));
    members_are_written(b0, "reference_id"@, <ReferenceId as Json>::json(model.reference_id));
    let b2 = with_member(b1, "repository_id"@, <RepositoryId as Json>::json(model.repository_id));
    members_are_written(b1, "repository_id"@, <RepositoryId as Json>::json(model.repository_id));
    let b3 = with_member(b2, "artifact_kind"@, <ArtifactKind as Json>::json(model.artifact_kind));
    members_are_written(b2, "artifact_kind"@, <ArtifactKind as Json>::json(model.artifact_kind));
    let b4 = with_member(b3, "relation"@, <ReferenceRelation as Json>::json(model.relation));
    members_are_written(b3, "relation"@, <ReferenceRelation as Json>::json(model.relation));
    let b5 = with_member(b4, "locator"@, <ArtifactLocator as Json>::json(model.locator));
    members_are_written(b4, "locator"@, <ArtifactLocator as Json>::json(model.locator));
    let b6 = with_member(b5, "supports"@, <String as Json>::json(model.supports));
    members_are_written(b5, "supports"@, <String as Json>::json(model.supports));
    let b7 = with_member(b6, "limitations"@, <Vec<String> as Json>::json(model.limitations));
    members_are_written(b6, "limitations"@, <Vec<String> as Json>::json(model.limitations));
    assert(model.json_members(b0) == b7);
    objects_write_their_body(b7);
}

/// The JSON text of [`EngineeringArtifact`] writes every field of it under its own name.
pub proof fn engineering_artifact_json_writes_every_field(model: EngineeringArtifactView)
    ensures
        writes(
            <EngineeringArtifact as Json>::json(model),
            "repository"@,
            <RepositoryIdentity as Json>::json(model.repository),
        ),
        writes(
            <EngineeringArtifact as Json>::json(model),
            "artifact_key"@,
            <ArtifactKey as Json>::json(model.artifact_key),
        ),
        writes(
            <EngineeringArtifact as Json>::json(model),
            "display_name"@,
            <String as Json>::json(model.display_name),
        ),
{
    let b0 = Seq::<char>::empty();
    let b1 = with_member(b0, "repository"@, <RepositoryIdentity as Json>::json(model.repository));
    members_are_written(b0, "repository"@, <RepositoryIdentity as Json>::json(model.repository));
    let b2 = with_member(b1, "artifact_key"@, <ArtifactKey as Json>::json(model.artifact_key));
    members_are_written(b1, "artifact_key"@, <ArtifactKey as Json>::json(model.artifact_key));
    let b3 = with_member(b2, "display_name"@, <String as Json>::json(model.display_name));
    members_are_written(b2, "display_name"@, <String as Json>::json(model.display_name));
    assert(model.json_members(b0) == b3);
    objects_write_their_body(b3);
}

/// The JSON text of [`ArtifactResolution`] writes every field of it under its own name.
pub proof fn artifact_resolution_json_writes_every_field(model: ArtifactResolutionView)
    ensures
        writes(
            <ArtifactResolution as Json>::json(model),
            "reference_id"@,
            <ReferenceId as Json>::json(model.reference_id),
        ),
        writes(
            <ArtifactResolution as Json>::json(model),
            "repository_id"@,
            <RepositoryId as Json>::json(model.repository_id),
        ),
        writes(<ArtifactResolution as Json>::json(model), "status"@, <ResolutionStatus as Json>::json(model.status)),
        writes(
            <ArtifactResolution as Json>::json(model),
            "resolved_artifact"@,
            <Option<ArtifactKey> as Json>::json(model.resolved_artifact),
        ),
        writes(
            <ArtifactResolution as Json>::json(model),
            "candidates"@,
            <Vec<ArtifactKey> as Json>::json(model.candidates),
        ),
        writes(<ArtifactResolution as Json>::json(model), "explanation"@, <String as Json>::json(model.explanation)),
{
    let b0 = Seq::<char>::empty();
    let b1 = with_member(b0, "reference_id"@, <ReferenceId as Json>::json(model.reference_id));
    members_are_written(b0, "reference_id"@, <ReferenceId as Json>::json(model.reference_id));
    let b2 = with_member(b1, "repository_id"@, <RepositoryId as Json>::json(model.repository_id));
    members_are_written(b1, "repository_id"@, <RepositoryId as Json>::json(model.repository_id));
    let b3 = with_member(b2, "status"@, <ResolutionStatus as Json>::json(model.status));
    members_are_written(b2, "status"@, <ResolutionStatus as Json>::json(model.status));
    let b4 = with_member(b3, "resolved_artifact"@, <Option<ArtifactKey> as Json>::json(model.resolved_artifact));
    members_are_written(b3, "resolved_artifact"@, <Option<ArtifactKey> as Json>::json(model.resolved_artifact));
    let b5 = with_member(b4, "candidates"@, <Vec<ArtifactKey> as Json>::json(model.candidates));
    members_are_written(b4, "candidates"@, <Vec<ArtifactKey> as Json>::json(model.candidates));
    let b6 = with_member(b5, "explanation"@, <String as Json>::json(model.explanation));
    members_are_written(b5, "explanation"@, <String as Json>::json(model.explanation));
    assert(model.json_members(b0) == b6);
    objects_write_their_body(b6);
}

/// The JSON text of [`ContextRelation`] writes every field of it under its own name.
pub proof fn context_relation_json_writes_every_field(model: ContextRelationView)
    ensures
        writes(
            <ContextRelation as Json>::json(model),
            "target_context_id"@,
            <ContextId as Json>::json(model.target_context_id),
        ),
        writes(<ContextRelation as Json>::json(model), "kind"@, <ContextRelationKind as Json>::json(model.kind)),
        writes(<ContextRelation as Json>::json(model), "rationale"@, <String as Json>::json(model.rationale)),
        writes(<ContextRelation as Json>::json(model), "supports"@, <Vec<String> as Json>::json(model.supports)),
{
    let b0 = Seq::<char>::empty();
    let b1 = with_member(b0, "target_context_id"@, <ContextId as Json>::json(model.target_context_id));
    members_are_written(b0, "target_context_id"@, <ContextId as Json>::json(model.target_context_id));
    let b2 = with_member(b1, "kind"@, <ContextRelationKind as Json>::json(model.kind));
    members_are_written(b1, "kind"@, <ContextRelationKind as Json>::json(model.kind));
    let b3 = with_member(b2, "rationale"@, <String as Json>::json(model.rationale));
    members_are_written(b2, "rationale"@, <String as Json>::json(model.rationale));
    let b4 = with_member(b3, "supports"@, <Vec<String> as Json>::json(model.supports));
    members_are_written(b3, "supports"@, <Vec<String> as Json>::json(model.supports));
    assert(model.json_members(b0) == b4);
    objects_write_their_body(b4);
}

/// The JSON text of [`EngineeringGraphEdge`] writes every field of it under its own name.
pub proof fn engineering_graph_edge_json_writes_every_field(model: EngineeringGraphEdgeView)
    ensures
        writes(<EngineeringGraphEdge as Json>::json(model), "source"@, <ArtifactKey as Json>::json(model.source)),
        writes(<EngineeringGraphEdge as Json>::json(model), "target"@, <ArtifactKey as Json>::json(model.target)),
        writes(
            <EngineeringGraphEdge as Json>::json(model),
            "kind"@,
            <ArtifactRelationKind as Json>::json(model.kind),
        ),
        writes(
            <EngineeringGraphEdge as Json>::json(model),
            "explanation"@,
            <String as Json>::json(model.explanation),
        ),
{
    let b0 = Seq::<char>::empty();
    let b1 = with_member(b0, "source"@, <ArtifactKey as Json>::json(model.source));
    members_are_written(b0, "source"@, <ArtifactKey as Json>::json(model.source));
    let b2 = with_member(b1, "target"@, <ArtifactKey as Json>::json(model.target));
    members_are_written(b1, "target"@, <ArtifactKey as Json>::json(model.target));
    let b3 = with_member(b2, "kind"@, <ArtifactRelationKind as Json>::json(model.kind));
    members_are_written(b2, "kind"@, <ArtifactRelationKind as Json>::json(model.kind));
    let b4 = with_member(b3, "explanation"@, <String as Json>::json(model.explanation));
    members_are_written(b3, "explanation"@, <String as Json>::json(model.explanation));
    assert(model.json_members(b0) == b4);
    objects_write_their_body(b4);
}

/// Every [`ArtifactKind`] is written under a name of its own.
pub proof fn artifact_kind_json_names_every_variant()
    ensures
        <ArtifactKind as Json>::json(ArtifactKind::Module) == "\"module\""@,
        <ArtifactKind as Json>::json(ArtifactKind::File) == "\"file\""@,
        <ArtifactKind as Json>::json(ArtifactKind::Symbol) == "\"symbol\""@,
        <ArtifactKind as Json>::json(ArtifactKind::Api) == "\"api\""@,
        <ArtifactKind as Json>::json(ArtifactKind::Schema) == "\"schema\""@,
        <ArtifactKind as Json>::json(ArtifactKind::Test) == "\"test\""@,
{
}

/// The JSON text of [`ArtifactLocator`] writes its kind and every field of it under its own name.
pub proof fn artifact_locator_json_writes_every_field(model: ArtifactLocatorView)
    ensures
        match model {
            ArtifactLocatorView::File { path } => writes(
                <ArtifactLocator as Json>::json(model),
                "locator_kind"@,
                "\"file\""@,
            )
                && writes(<ArtifactLocator as Json>::json(model), "path"@, <RepoRelativePath as Json>::json(path)),
            ArtifactLocatorView::Module { path } => writes(
                <ArtifactLocator as Json>::json(model),
                "locator_kind"@,
                "\"module\""@,
            )
                && writes(<ArtifactLocator as Json>::json(model), "path"@, <RepoRelativePath as Json>::json(path)),
            ArtifactLocatorView::Api { path, protocol, operation, normalized_route } => writes(
                <ArtifactLocator as Json>::json(model),
                "locator_kind"@,
                "\"api\""@,
            )
                && writes(<ArtifactLocator as Json>::json(model), "path"@, <RepoRelativePath as Json>::json(path))
                && writes(<ArtifactLocator as Json>::json(model), "protocol"@, <String as Json>::json(protocol))
                && writes(<ArtifactLocator as Json>::json(model), "operation"@, <String as Json>::json(operation))
                && writes(
                    <ArtifactLocator as Json>::json(model),
                    "normalized_route"@,
                    <String as Json>::json(normalized_route),
                ),
            ArtifactLocatorView::Schema { path, namespace, version, qualified_name } => writes(
                <ArtifactLocator as Json>::json(model),
                "locator_kind"@,
                "\"schema\""@,
            )
                && writes(<ArtifactLocator as Json>::json(model), "path"@, <RepoRelativePath as Json>::json(path))
                && writes(<ArtifactLocator as Json>::json(model), "namespace"@, <String as Json>::json(namespace))
                && writes(<ArtifactLocator as Json>::json(model), "version"@, <String as Json>::json(version))
                && writes(
                    <ArtifactLocator as Json>::json(model),
                    "qualified_name"@,
                    <String as Json>::json(qualified_name),
                ),
            ArtifactLocatorView::Symbol { path, language, module, enclosing_type, symbol_name, signature } => writes(
                <ArtifactLocator as Json>::json(model),
                "locator_kind"@,
                "\"symbol\""@,
            )
                && writes(<ArtifactLocator as Json>::json(model), "path"@, <RepoRelativePath as Json>::json(path))
                && writes(<ArtifactLocator as Json>::json(model), "language"@, <String as Json>::json(language))
                && writes(<ArtifactLocator as Json>::json(model), "module"@, <String as Json>::json(module))
                && writes(
                    <ArtifactLocator as Json>::json(model),
                    "enclosing_type"@,
                    <Option<String> as Json>::json(enclosing_type),
                )
                && writes(<ArtifactLocator as Json>::json(model), "symbol_name"@, <String as Json>::json(symbol_name))
                && writes(<ArtifactLocator as Json>::json(model), "signature"@, <String as Json>::json(signature)),
            ArtifactLocatorView::Test { path, qualified_test_name } => writes(
                <ArtifactLocator as Json>::json(model),
                "locator_kind"@,
                "\"test\""@,
            )
                && writes(<ArtifactLocator as Json>::json(model), "path"@, <RepoRelativePath as Json>::json(path))
                && writes(
                    <ArtifactLocator as Json>::json(model),
                    "qualified_test_name"@,
                    <String as Json>::json(qualified_test_name),
                ),
        },
{
    match model {
        ArtifactLocatorView::File { path } => {
            let b0 = Seq::<char>::empty();
            let b1 = with_member(b0, "locator_kind"@, "\"file\""@);
            members_are_written(b0, "locator_kind"@, "\"file\""@);
            let b2 = with_member(b1, "path"@, <RepoRelativePath as Json>::json(path));
            members_are_written(b1, "path"@, <RepoRelativePath as Json>::json(path));
            objects_write_their_body(b2);
        },
        ArtifactLocatorView::Module { path } => {
            let b0 = Seq::<char>::empty();
            let b1 = with_member(b0, "locator_kind"@, "\"module\""@);
            members_are_written(b0, "locator_kind"@, "\"module\""@);
            let b2 = with_member(b1, "path"@, <RepoRelativePath as Json>::json(path));
            members_are_written(b1, "path"@, <RepoRelativePath as Json>::json(path));
            objects_write_their_body(b2);
        },
        ArtifactLocatorView::Api { path, protocol, operation, normalized_route } => {
            let b0 = Seq::<char>::empty();
            let b1 = with_member(b0, "locator_kind"@, "\"api\""@);
            members_are_written(b0, "locator_kind"@, "\"api\""@);
            let b2 = with_member(b1, "path"@, <RepoRelativePath as Json>::json(path));
            members_are_written(b1, "path"@, <RepoRelativePath as Json>::json(path));
            let b3 = with_member(b2, "protocol"@, <String as Json>::json(protocol));
            members_are_written(b2, "protocol"@, <String as Json>::json(protocol));
            let b4 = with_member(b3, "operation"@, <String as Json>::json(operation));
            members_are_written(b3, "operation"@, <String as Json>::json(operation));
            let b5 = with_member(b4, "normalized_route"@, <String as Json>::json(normalized_route));
            members_are_written(b4, "normalized_route"@, <String as Json>::json(normalized_route));
            objects_write_their_body(b5);
        },
        ArtifactLocatorView::Schema { path, namespace, version, qualified_name } => {
            let b0 = Seq::<char>::empty();
            let b1 = with_member(b0, "locator_kind"@, "\"schema\""@);
            members_are_written(b0, "locator_kind"@, "\"schema\""@);
            let b2 = with_member(b1, "path"@, <RepoRelativePath as Json>::json(path));
            members_are_written(b1, "path"@, <RepoRelativePath as Json>::json(path));
            let b3 = with_member(b2, "namespace"@, <String as Json>::json(namespace));
            members_are_written(b2, "namespace"@, <String as Json>::json(namespace));
            let b4 = with_member(b3, "version"@, <String as Json>::json(version));
            members_are_written(b3, "version"@, <String as Json>::json(version));
            let b5 = with_member(b4, "qualified_name"@, <String as Json>::json(qualified_name));
            members_are_written(b4, "qualified_name"@, <String as Json>::json(qualified_name));
            objects_write_their_body(b5);
        },
        ArtifactLocatorView::Symbol { path, language, module, enclosing_type, symbol_name, signature } => {
            let b0 = Seq::<char>::empty();
            let b1 = with_member(b0, "locator_kind"@, "\"symbol\""@);
            members_are_written(b0, "locator_kind"@, "\"symbol\""@);
            let b2 = with_member(b1, "path"@, <RepoRelativePath as Json>::json(path));
            members_are_written(b1, "path"@, <RepoRelativePath as Json>::json(path));
            let b3 = with_member(b2, "language"@, <String as Json>::json(language));
            members_are_written(b2, "language"@, <String as Json>::json(language));
            let b4 = with_member(b3, "module"@, <String as Json>::json(module));
            members_are_written(b3, "module"@, <String as Json>::json(module));
            let b5 = with_member(b4, "enclosing_type"@, <Option<String> as Json>::json(enclosing_type));
            members_are_written(b4, "enclosing_type"@, <Option<String> as Json>::json(enclosing_type));
            let b6 = with_member(b5, "symbol_name"@, <String as Json>::json(symbol_name));
            members_are_written(b5, "symbol_name"@, <String as Json>::json(symbol_name));
            let b7 = with_member(b6, "signature"@, <String as Json>::json(signature));
            members_are_written(b6, "signature"@, <String as Json>::json(signature));
            objects_write_their_body(b7);
        },
        ArtifactLocatorView::Test { path, qualified_test_name } => {
            let b0 = Seq::<char>::empty();
            let b1 = with_member(b0, "locator_kind"@, "\"test\""@);
            members_are_written(b0, "locator_kind"@, "\"test\""@);
            let b2 = with_member(b1, "path"@, <RepoRelativePath as Json>::json(path));
            members_are_written(b1, "path"@, <RepoRelativePath as Json>::json(path));
            let b3 = with_member(b2, "qualified_test_name"@, <String as Json>::json(qualified_test_name));
            members_are_written(b2, "qualified_test_name"@, <String as Json>::json(qualified_test_name));
            objects_write_their_body(b3);
        },
    }
}

/// Every [`ReferenceRelation`] is written under a name of its own.
pub proof fn reference_relation_json_names_every_variant()
    ensures
        <ReferenceRelation as Json>::json(ReferenceRelation::Implements) == "\"implements\""@,
        <ReferenceRelation as Json>::json(ReferenceRelation::Defines) == "\"defines\""@,
        <ReferenceRelation as Json>::json(ReferenceRelation::Consumes) == "\"consumes\""@,
        <ReferenceRelation as Json>::json(ReferenceRelation::Validates) == "\"validates\""@,
        <ReferenceRelation as Json>::json(ReferenceRelation::Constrains) == "\"constrains\""@,
        <ReferenceRelation as Json>::json(ReferenceRelation::DependsOn) == "\"depends_on\""@,
{
}

/// Every [`ResolutionStatus`] is written under a name of its own.
pub proof fn resolution_status_json_names_every_variant()
    ensures
        <ResolutionStatus as Json>::json(ResolutionStatus::Resolved) == "\"resolved\""@,
        <ResolutionStatus as Json>::json(ResolutionStatus::Ambiguous) == "\"ambiguous\""@,
        <ResolutionStatus as Json>::json(ResolutionStatus::Missing) == "\"missing\""@,
        <ResolutionStatus as Json>::json(ResolutionStatus::Unavailable) == "\"unavailable\""@,
{
}

/// Every [`ArtifactAssociationKind`] is written under a name of its own.
pub proof fn artifact_association_kind_json_names_every_variant()
    ensures
        <ArtifactAssociationKind as Json>::json(ArtifactAssociationKind::Implements) == "\"implements\""@,
        <ArtifactAssociationKind as Json>::json(ArtifactAssociationKind::DefinesContract) == "\"defines_contract\""@,
        <ArtifactAssociationKind as Json>::json(ArtifactAssociationKind::Uses) == "\"uses\""@,
        <ArtifactAssociationKind as Json>::json(ArtifactAssociationKind::ValidatedBy) == "\"validated_by\""@,
        <ArtifactAssociationKind as Json>::json(ArtifactAssociationKind::ConstrainedBy) == "\"constrained_by\""@,
{
}

/// Every [`ContextRelationKind`] is written under a name of its own.
pub proof fn context_relation_kind_json_names_every_variant()
    ensures
        <ContextRelationKind as Json>::json(ContextRelationKind::DependsOn) == "\"depends_on\""@,
        <ContextRelationKind as Json>::json(ContextRelationKind::Constrains) == "\"constrains\""@,
        <ContextRelationKind as Json>::json(ContextRelationKind::Implements) == "\"implements\""@,
        <ContextRelationKind as Json>::json(ContextRelationKind::ValidatedBy) == "\"validated_by\""@,
        <ContextRelationKind as Json>::json(ContextRelationKind::Contradicts) == "\"contradicts\""@,
        <ContextRelationKind as Json>::json(ContextRelationKind::Supersedes) == "\"supersedes\""@,
        <ContextRelationKind as Json>::json(ContextRelationKind::RelatedTo) == "\"related_to\""@,
{
}

/// Every [`ArtifactRelationKind`] is written under a name of its own.
pub proof fn artifact_relation_kind_json_names_every_variant()
    ensures
        <ArtifactRelationKind as Json>::json(ArtifactRelationKind::Contains) == "\"contains\""@,
        <ArtifactRelationKind as Json>::json(ArtifactRelationKind::Defines) == "\"defines\""@,
        <ArtifactRelationKind as Json>::json(ArtifactRelationKind::Calls) == "\"calls\""@,
        <ArtifactRelationKind as Json>::json(ArtifactRelationKind::Consumes) == "\"consumes\""@,
        <ArtifactRelationKind as Json>::json(ArtifactRelationKind::Produces) == "\"produces\""@,
        <ArtifactRelationKind as Json>::json(ArtifactRelationKind::Validates) == "\"validates\""@,
        <ArtifactRelationKind as Json>::json(ArtifactRelationKind::Implements) == "\"implements\""@,
        <ArtifactRelationKind as Json>::json(ArtifactRelationKind::DependsOn) == "\"depends_on\""@,
{
}

} // verus!
