//! What a build is asked to do: the base image, the target repository and
//! its tags, and the changes to make.

use crate::image::ExecConfig;
use crate::text::to_chars;
use vstd::prelude::*;
use vstd::string::StringExecFns;

verus! {

/// How to authenticate to a registry.
#[derive(Debug, PartialEq, Eq)]
pub enum Authorization {
    /// A user name and a password.
    UserPassword(String, String),
    /// A token, which is sent as the password of the user with the empty
    /// name.
    Token(String),
    /// No credentials.
    Anonymous,
}

/// An authorization as a plain value.
pub ghost enum AuthorizationView {
    UserPassword(Seq<char>, Seq<char>),
    Token(Seq<char>),
    Anonymous,
}

impl View for Authorization {
    type V = AuthorizationView;

    open spec fn view(&self) -> AuthorizationView {
        match self {
            Authorization::UserPassword(user, password) => AuthorizationView::UserPassword(
                user@,
                password@,
            ),
            Authorization::Token(token) => AuthorizationView::Token(token@),
            Authorization::Anonymous => AuthorizationView::Anonymous,
        }
    }
}

impl Default for Authorization {
    fn default() -> (res: Self)
        ensures
            res@ == AuthorizationView::Anonymous,
    {
        Authorization::Anonymous
    }
}

/// The first character of a tag: a letter, a digit or an underscore.
pub open spec fn is_tag_start(c: char) -> bool {
    ('a' <= c && c <= 'z') || ('A' <= c && c <= 'Z') || ('0' <= c && c <= '9') || c == '_'
}

/// A later character of a tag: a letter, a digit, a dot, an underscore or a
/// hyphen.
pub open spec fn is_tag_char(c: char) -> bool {
    is_tag_start(c) || c == '.' || c == '-'
}

/// The grammar of a tag: one to 128 characters, the first a start
/// character.
pub open spec fn tag_name_valid(s: Seq<char>) -> bool {
    &&& 1 <= s.len() <= 128
    &&& is_tag_start(s[0])
    &&& forall|i: int| 1 <= i < s.len() ==> is_tag_char(#[trigger] s[i])
}

/// Why a text is no tag.
#[derive(Debug, Clone, Copy, PartialEq, Eq, Structural)]
pub enum TagNameError {
    /// The text does not follow the grammar of a tag.
    Invalid,
}

/// The name of a tag. Every value follows the grammar of a tag.
#[derive(Debug, PartialEq, Eq)]
pub struct TagName {
    name: String,
}

impl View for TagName {
    type V = Seq<char>;

    closed spec fn view(&self) -> Seq<char> {
        self.name@
    }
}

impl DeepView for TagName {
    type V = Seq<char>;

    open spec fn deep_view(&self) -> Seq<char> {
        self@
    }
}

impl Clone for TagName {
    fn clone(&self) -> (res: Self)
        ensures
            res@ == self@,
    {
        proof {
            use_type_invariant(self);
        }
        TagName { name: self.name.clone() }
    }
}

fn tag_start(c: char) -> (res: bool)
    ensures
        res == is_tag_start(c),
{
    ('a' <= c && c <= 'z') || ('A' <= c && c <= 'Z') || ('0' <= c && c <= '9') || c == '_'
}

impl TagName {
    #[verifier::type_invariant]
    spec fn valid(self) -> bool {
        tag_name_valid(self.name@)
    }

    /// Makes a tag of `name`. Succeeds exactly on the texts that follow the
    /// grammar of a tag.
    pub fn try_new(name: &str) -> (res: Result<TagName, TagNameError>)
        ensures
            res is Ok <==> tag_name_valid(name@),
            res matches Ok(tag) ==> tag@ == name@,
            res matches Err(e) ==> e == TagNameError::Invalid,
    {
        let chars = to_chars(name);
        if chars.len() < 1 || chars.len() > 128 || !tag_start(chars[0]) {
            return Err(TagNameError::Invalid);
        }
        let mut i: usize = 1;
        while i < chars.len()
            invariant
                1 <= i <= chars.len(),
                chars@ == name@,
                forall|j: int| 1 <= j < i ==> is_tag_char(#[trigger] chars@[j]),
            decreases chars.len() - i,
        {
            let c = chars[i];
            if !(tag_start(c) || c == '.' || c == '-') {
                assert(!is_tag_char(name@[i as int]));
                return Err(TagNameError::Invalid);
            }
            i = i + 1;
        }
        Ok(TagName { name: String::from_str(name) })
    }

    /// The text of the tag.
    pub fn as_str(&self) -> (res: &str)
        ensures
            res@ == self@,
            tag_name_valid(res@),
    {
        proof {
            use_type_invariant(self);
        }
        self.name.as_str()
    }

    /// The text of the tag, owned.
    pub fn to_string(&self) -> (res: String)
        ensures
            res@ == self@,
            tag_name_valid(res@),
    {
        proof {
            use_type_invariant(self);
        }
        self.name.clone()
    }

    /// The text of the tag, taken out.
    pub fn into_inner(self) -> (res: String)
        ensures
            res@ == self@,
            tag_name_valid(res@),
    {
        proof {
            use_type_invariant(&self);
        }
        self.name
    }

    /// Whether the tag has no characters. No tag has none.
    pub fn is_empty(&self) -> (res: bool)
        ensures
            res == (self@.len() == 0),
            !res,
    {
        proof {
            use_type_invariant(self);
        }
        self.name.as_str().is_empty()
    }
}

impl<'a> TryFrom<&'a str> for TagName {
    type Error = TagNameError;

    /// Makes a tag of `name`, as `try_new` does.
    fn try_from(name: &'a str) -> (res: Result<TagName, TagNameError>)
        ensures
            res is Ok <==> tag_name_valid(name@),
            res matches Ok(tag) ==> tag@ == name@,
            res matches Err(e) ==> e == TagNameError::Invalid,
    {
        TagName::try_new(name)
    }
}

/// The conversion is specified by its own contract; nothing more is claimed
/// of it through the trait.
impl<'a> vstd::std_specs::convert::TryFromSpecImpl<&'a str> for TagName {
    open spec fn obeys_try_from_spec() -> bool {
        false
    }

    open spec fn try_from_spec(name: &'a str) -> Result<TagName, TagNameError> {
        Err(TagNameError::Invalid)
    }
}

/// An image by name: where it lies, and which of its versions is meant.
#[derive(Debug, PartialEq, Eq)]
pub struct ImageReference {
    pub registry: String,
    pub repository: String,
    pub tag: Option<String>,
    pub digest: Option<String>,
}

/// The version that a reference names: its digest where it has one, else
/// its tag, else `latest`.
pub open spec fn selected_version(tag: Option<Seq<char>>, digest: Option<Seq<char>>) -> Seq<char> {
    match digest {
        Some(d) => d,
        None => match tag {
            Some(t) => t,
            None => "latest"@,
        },
    }
}

impl ImageReference {
    /// The version to ask the registry for.
    pub fn version(&self) -> (res: String)
        ensures
            res@ == selected_version(self.tag.deep_view(), self.digest.deep_view()),
    {
        match &self.digest {
            Some(d) => d.clone(),
            None => match &self.tag {
                Some(t) => t.clone(),
                None => String::from_str("latest"),
            },
        }
    }
}

/// The image to build on.
#[derive(Debug, PartialEq, Eq)]
pub struct BaseSource {
    pub auth: Authorization,
    pub image: ImageReference,
}

/// The repository to publish to, and the tags to publish under.
#[derive(Debug, PartialEq, Eq)]
pub struct Target {
    pub auth: Authorization,
    pub registry: String,
    pub repo: String,
    pub tags: Vec<TagName>,
}

impl Target {
    /// The tags to publish under, in the order given. Empty tags would be
    /// left out; as no tag is empty, none is.
    pub fn tags(&self) -> (res: Vec<TagName>)
        ensures
            res.deep_view() == self.tags.deep_view(),
    {
        let mut res: Vec<TagName> = Vec::new();
        let mut i: usize = 0;
        while i < self.tags.len()
            invariant
                i <= self.tags.len(),
                res.len() == i,
                forall|j: int| 0 <= j < i ==> res[j]@ == self.tags[j]@,
            decreases self.tags.len() - i,
        {
            if !self.tags[i].is_empty() {
                res.push(self.tags[i].clone());
            }
            i = i + 1;
        }
        assert(res.deep_view() =~= self.tags.deep_view());
        res
    }
}

/// The changes to make to the base image.
#[derive(Debug, PartialEq, Eq)]
pub struct ImageModification {
    pub execution_config: Option<ExecConfig>,
    pub app_layer_folder: String,
}

/// A whole build.
#[derive(Debug, PartialEq, Eq)]
pub struct Recipe {
    pub base: BaseSource,
    pub target: Target,
    pub modification: ImageModification,
}

} // verus!
