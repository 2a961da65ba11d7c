//! Rewriting the header of an object's DDL so that it names the object with
//! its owner, and joining a specification with its body.

use vstd::prelude::*;
use vstd::string::*;

use crate::pattern::{find_first, first_match, has_match, is_match, PatternMatch, PatternMatchView};
use crate::plsqldev_api::{SelectedObject, SelectedObjectView};
use crate::text::{lowercase, same_text, to_lowercase, trim, trimmed};

verus! {

/// The header of a `create or replace` statement. The groups are, in order:
/// the edition qualifier, the kind of object, the body marker, the
/// parenthesised list behind the name, a `force` marker, `is` or `as`, and
/// the rest of the line. The name itself is matched but not captured.
pub const DDL_HEADER: &'static str =
    r#"create or replace (editionable|noneditionable)?\s*(package|type|view|trigger|function|procedure)\s*(body )?[a-z0-9_$"]+\s*(\([a-z0-9._$", ]+\))?\s*(force )?(is|as)?(.*)"#;

/// The comment that the IDE hands out in place of a body that it cannot show.
pub const OBJECT_BODY_NOT_AVAILABLE: &'static str =
    r#"/\* Source of (TYPE|PACKAGE) BODY [A-Za-z0-9$_"]+ is not available \*/.*"#;

/// The line that ends a statement in a migration file.
pub const TERMINATOR: &'static str = "\n/\n";

/// What a header holds, as far as its rewriting goes: the keywords in lower
/// case, and the other pieces as the source has them. A piece that the
/// header lacks is empty.
#[derive(Debug, PartialEq, Eq)]
pub struct HeaderParts {
    /// `editionable` or `noneditionable`.
    pub qualifier: String,
    /// The kind of object, such as `package`.
    pub kind: String,
    /// `body ` with its blank, for the body of a package or a type.
    pub body: String,
    /// The parenthesised list behind the name.
    pub parameter_list: String,
    /// `is` or `as`.
    pub is_or_as: String,
    /// What follows on the line of the header.
    pub rest_of_line: String,
}

/// The pieces of a header as texts.
pub struct HeaderPartsView {
    pub qualifier: Seq<char>,
    pub kind: Seq<char>,
    pub body: Seq<char>,
    pub parameter_list: Seq<char>,
    pub is_or_as: Seq<char>,
    pub rest_of_line: Seq<char>,
}

impl View for HeaderParts {
    type V = HeaderPartsView;

    open spec fn view(&self) -> HeaderPartsView {
        HeaderPartsView {
            qualifier: self.qualifier@,
            kind: self.kind@,
            body: self.body@,
            parameter_list: self.parameter_list@,
            is_or_as: self.is_or_as@,
            rest_of_line: self.rest_of_line@,
        }
    }
}

/// `force `, where objects of this type are created by force and the marker
/// stands in front of the kind: views.
pub open spec fn force_before_kind(object_type: Seq<char>) -> Seq<char> {
    if object_type == "VIEW"@ {
        "force "@
    } else {
        Seq::empty()
    }
}

/// `force `, where objects of this type are created by force and the marker
/// stands behind the name: types.
pub open spec fn force_after_name(object_type: Seq<char>) -> Seq<char> {
    if object_type == "TYPE"@ {
        "force "@
    } else {
        Seq::empty()
    }
}

impl HeaderPartsView {
    /// The edition qualifier of the rewritten header, with its trailing
    /// blank; nothing for any other text.
    pub open spec fn qualifier_text(self) -> Seq<char> {
        if self.qualifier == "editionable"@ {
            "editionable "@
        } else if self.qualifier == "noneditionable"@ {
            "noneditionable "@
        } else {
            Seq::empty()
        }
    }

    /// What stands between the name and the rest of the line: a line break
    /// for a trigger, else the header's own `is` or `as`.
    pub open spec fn is_or_as_text(self, object_type: Seq<char>) -> Seq<char> {
        if object_type == "TRIGGER"@ {
            "\n"@
        } else {
            self.is_or_as
        }
    }

    /// The rewritten header up to the object's name.
    pub open spec fn prefix(self, object_type: Seq<char>) -> Seq<char> {
        "create or replace "@ + self.qualifier_text() + force_before_kind(object_type) + self.kind
            + " "@ + self.body
    }

    /// The rewritten header behind the object's name. The blank behind the
    /// parameter list stands there whether or not there is a list.
    pub open spec fn suffix(self, object_type: Seq<char>) -> Seq<char> {
        self.parameter_list + " "@ + force_after_name(object_type) + self.is_or_as_text(
            object_type,
        ) + self.rest_of_line
    }

    /// The rewritten header: `owner.name` stands between prefix and suffix.
    pub open spec fn header(
        self,
        object_type: Seq<char>,
        object_owner: Seq<char>,
        object_name: Seq<char>,
    ) -> Seq<char> {
        self.prefix(object_type) + object_owner + "."@ + object_name + self.suffix(object_type)
    }
}

/// The pieces of a header that was found: the groups of the match, the
/// keywords among them in lower case. The name that the source gave and a
/// `force` marker of the source are no part of them.
pub open spec fn parts_of(found: PatternMatchView) -> HeaderPartsView {
    HeaderPartsView {
        qualifier: lowercase(found.group(1)),
        kind: lowercase(found.group(2)),
        body: lowercase(found.group(3)),
        parameter_list: found.group(4),
        is_or_as: lowercase(found.group(6)),
        rest_of_line: found.group(7),
    }
}

/// The DDL in which the matched header is replaced by the rewritten one.
pub open spec fn rewritten(
    found: PatternMatchView,
    object_type: Seq<char>,
    object_owner: Seq<char>,
    object_name: Seq<char>,
) -> Seq<char> {
    found.before + parts_of(found).header(object_type, object_owner, object_name) + found.after
}

/// The DDL with its first header rewritten. A DDL in which no header is
/// found stays as it is.
pub open spec fn normalized(
    ddl: Seq<char>,
    object_type: Seq<char>,
    object_owner: Seq<char>,
    object_name: Seq<char>,
) -> Seq<char> {
    match first_match(DDL_HEADER@, true, ddl) {
        Some(found) => rewritten(found, object_type, object_owner, object_name),
        None => ddl,
    }
}

impl HeaderParts {
    /// The pieces of a header that was found.
    pub fn of(found: &PatternMatch) -> (parts: HeaderParts)
        ensures
            parts@ == parts_of(found@),
    {
        HeaderParts {
            qualifier: to_lowercase(found.group(1)),
            kind: to_lowercase(found.group(2)),
            body: to_lowercase(found.group(3)),
            parameter_list: found.group(4).to_owned(),
            is_or_as: to_lowercase(found.group(6)),
            rest_of_line: found.group(7).to_owned(),
        }
    }

    /// Appends the rewritten header up to the object's name.
    fn append_prefix(&self, ddl: &mut String, object_type: &str)
        ensures
            final(ddl)@ == old(ddl)@ + self@.prefix(object_type@),
    {
        let mut prefix = "create or replace ".to_owned();
        if same_text(self.qualifier.as_str(), "editionable") {
            prefix.append("editionable ");
        } else if same_text(self.qualifier.as_str(), "noneditionable") {
            prefix.append("noneditionable ");
        }
        if same_text(object_type, "VIEW") {
            prefix.append("force ");
        }
        prefix.append(self.kind.as_str());
        prefix.append(" ");
        prefix.append(self.body.as_str());
        ddl.append(prefix.as_str());
    }

    /// Appends the rewritten header behind the object's name.
    fn append_suffix(&self, ddl: &mut String, object_type: &str)
        ensures
            final(ddl)@ == old(ddl)@ + self@.suffix(object_type@),
    {
        let mut suffix = self.parameter_list.clone();
        suffix.append(" ");
        if same_text(object_type, "TYPE") {
            suffix.append("force ");
        }
        if same_text(object_type, "TRIGGER") {
            suffix.append("\n");
        } else {
            suffix.append(self.is_or_as.as_str());
        }
        suffix.append(self.rest_of_line.as_str());
        ddl.append(suffix.as_str());
    }

    /// Appends the rewritten header to `ddl`: `create or replace`, the
    /// qualifier, the kind and the body marker, then `owner.name`, the
    /// parameter list, `is` or `as` and the rest of the line. A view gets
    /// `force` in front of its kind, a type behind its name, and a trigger a
    /// line break in place of `is` or `as`.
    pub fn append_to(&self, ddl: &mut String, object_type: &str, object_owner: &str, object_name: &str)
        ensures
            final(ddl)@ == old(ddl)@ + self@.header(object_type@, object_owner@, object_name@),
    {
        self.append_prefix(ddl, object_type);
        ddl.append(object_owner);
        ddl.append(".");
        ddl.append(object_name);
        self.append_suffix(ddl, object_type);
    }
}

/// Builds the DDL around a header that was found: the text in front of it,
/// the header rewritten for `object_type` with the name `owner.name`, and the
/// text behind it.
pub fn rewrite_header(
    found: &PatternMatch,
    object_type: &str,
    object_owner: &str,
    object_name: &str,
) -> (ddl: String)
    ensures
        ddl@ == rewritten(found@, object_type@, object_owner@, object_name@),
{
    let mut ddl = found.before.clone();
    HeaderParts::of(found).append_to(&mut ddl, object_type, object_owner, object_name);
    ddl.append(found.after.as_str());
    ddl
}

/// Replaces the name in the DDL's header with `owner.name`, and makes the
/// header create views and types by force. Keywords of the header come out in
/// lower case. Only the first header is rewritten, and a DDL without a header
/// that the pattern finds is returned as it is.
pub fn ensure_owner_in_ddl(ddl: &str, object_type: &str, object_owner: &str, object_name: &str) -> (result:
    String)
    ensures
        result@ == normalized(ddl@, object_type@, object_owner@, object_name@),
{
    match find_first(DDL_HEADER, true, ddl) {
        Some(found) => rewrite_header(&found, object_type, object_owner, object_name),
        None => ddl.to_owned(),
    }
}

/// In a rewritten DDL the qualified name stands once where the source had
/// its own name: directly behind the header's keywords. Everything else in
/// the result is fixed by the match and the object type alone.
pub proof fn qualified_name_replaces_the_name(
    found: PatternMatchView,
    object_type: Seq<char>,
    object_owner: Seq<char>,
    object_name: Seq<char>,
)
    ensures
        ({
            let ddl = rewritten(found, object_type, object_owner, object_name);
            let front = found.before + parts_of(found).prefix(object_type);
            let qualified = object_owner + seq!['.'] + object_name;
            let back = parts_of(found).suffix(object_type) + found.after;
            &&& ddl == front + qualified + back
            &&& ddl.subrange(0, front.len() as int) == front
            &&& ddl.subrange(front.len() as int, (front.len() + qualified.len()) as int)
                == qualified
            &&& ddl.subrange((front.len() + qualified.len()) as int, ddl.len() as int) == back
        }),
{
    reveal_strlit(".");
}

/// The kind under which the IDE keeps the body of an object of this type;
/// empty for types that have no body.
pub open spec fn body_kind(object_type: Seq<char>) -> Seq<char> {
    if object_type == "PACKAGE"@ {
        "PACKAGE BODY"@
    } else if object_type == "TYPE"@ {
        "TYPE BODY"@
    } else {
        Seq::empty()
    }
}

/// The kind under which the IDE keeps the body of an object of this type;
/// empty for types that have no body.
pub fn type_of_object_body(object_type: &str) -> (kind: &'static str)
    ensures
        kind@ == body_kind(object_type@),
{
    proof {
        reveal_strlit("");
    }
    if same_text(object_type, "PACKAGE") {
        "PACKAGE BODY"
    } else if same_text(object_type, "TYPE") {
        "TYPE BODY"
    } else {
        ""
    }
}

/// A specification and its body as one migration: each followed by a
/// terminator line. A body that is missing is left out.
pub open spec fn combined(object_spec: Seq<char>, object_body: Seq<char>, body_missing: bool) -> Seq<
    char,
> {
    if body_missing {
        object_spec + TERMINATOR@
    } else {
        object_spec + TERMINATOR@ + object_body + TERMINATOR@
    }
}

/// Whether a body's text is the IDE's notice that the source is not
/// available.
pub open spec fn body_is_unavailable(object_body: Seq<char>) -> bool {
    has_match(OBJECT_BODY_NOT_AVAILABLE@, object_body)
}

/// The migration for a package or a type: specification and body, each with
/// its header rewritten and without white space around it, joined by
/// `combined`.
pub open spec fn source_and_body(
    object: SelectedObjectView,
    object_spec: Seq<char>,
    object_body: Seq<char>,
) -> Seq<char> {
    let spec_text = trimmed(
        normalized(object_spec, object.object_type, object.object_owner, object.object_name),
    );
    let body_text = trimmed(
        normalized(
            object_body,
            body_kind(object.object_type),
            object.object_owner,
            object.object_name,
        ),
    );
    combined(spec_text, body_text, body_is_unavailable(body_text))
}

/// Joins a specification with its body, each followed by a terminator line;
/// with `body_missing` only the specification is written.
pub fn combine_spec_and_body(object_spec: &str, object_body: &str, body_missing: bool) -> (source:
    String)
    ensures
        source@ == combined(object_spec@, object_body@, body_missing),
{
    let mut source = object_spec.to_owned();
    source.append(TERMINATOR);
    if !body_missing {
        source.append(object_body);
        source.append(TERMINATOR);
    }
    source
}

/// The source of a package or a type including its body, from the two texts
/// that the IDE returned for them. Where the body's text is the notice that
/// no source is available, the result holds the specification alone,
/// followed by one terminator line.
pub fn get_object_source_and_body(
    selected_object: &SelectedObject,
    object_spec: &str,
    object_body: &str,
) -> (source: String)
    ensures
        source@ == source_and_body(selected_object@, object_spec@, object_body@),
        body_is_unavailable(
            trimmed(
                normalized(
                    object_body@,
                    body_kind(selected_object@.object_type),
                    selected_object@.object_owner,
                    selected_object@.object_name,
                ),
            ),
        ) ==> source@ == trimmed(
            normalized(
                object_spec@,
                selected_object@.object_type,
                selected_object@.object_owner,
                selected_object@.object_name,
            ),
        ) + TERMINATOR@,
{
    let object_spec_incl_owner = ensure_owner_in_ddl(
        object_spec,
        selected_object.object_type.as_str(),
        selected_object.object_owner.as_str(),
        selected_object.object_name.as_str(),
    );
    let object_body_incl_owner = ensure_owner_in_ddl(
        object_body,
        type_of_object_body(selected_object.object_type.as_str()),
        selected_object.object_owner.as_str(),
        selected_object.object_name.as_str(),
    );
    let spec_text = trim(object_spec_incl_owner.as_str());
    let body_text = trim(object_body_incl_owner.as_str());
    let body_missing = is_match(OBJECT_BODY_NOT_AVAILABLE, body_text);
    combine_spec_and_body(spec_text, body_text, body_missing)
}

/// The source of a view, trigger, function or procedure, from the text that
/// the IDE returned for it: the text with its header rewritten.
pub fn get_object_source(selected_object: &SelectedObject, object_source: &str) -> (source: String)
    ensures
        source@ == normalized(
            object_source@,
            selected_object@.object_type,
            selected_object@.object_owner,
            selected_object@.object_name,
        ),
{
    ensure_owner_in_ddl(
        object_source,
        selected_object.object_type.as_str(),
        selected_object.object_owner.as_str(),
        selected_object.object_name.as_str(),
    )
}

} // verus!
