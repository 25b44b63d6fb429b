//! What an agent says of itself.

use vstd::prelude::*;

use crate::text::{count_text, decimal, opt_str, text, views};

verus! {

/// Something that an agent can do.
#[derive(Debug)]
pub struct Skill {
    pub id: String,
    pub name: String,
    pub description: String,
    pub tags: Vec<String>,
    pub examples: Option<Vec<String>>,
}

/// What a skill holds.
#[verifier::ext_equal]
pub struct SkillView {
    pub id: Seq<char>,
    pub name: Seq<char>,
    pub description: Seq<char>,
    pub tags: Seq<Seq<char>>,
    pub examples: Option<Seq<Seq<char>>>,
}

impl View for Skill {
    type V = SkillView;

    open spec fn view(&self) -> SkillView {
        SkillView {
            id: self.id@,
            name: self.name@,
            description: self.description@,
            tags: views(self.tags@),
            examples: match self.examples {
                Some(examples) => Some(views(examples@)),
                None => None,
            },
        }
    }
}

/// The views of skills.
pub open spec fn skill_views(skills: Seq<Skill>) -> Seq<SkillView> {
    skills.map_values(|skill: Skill| skill@)
}

/// A skill with three tags and at most one example.
pub open spec fn skill_of(
    id: Seq<char>,
    name: Seq<char>,
    description: Seq<char>,
    tags: (Seq<char>, Seq<char>, Seq<char>),
    example: Option<Seq<char>>,
) -> SkillView {
    SkillView {
        id,
        name,
        description,
        tags: seq![tags.0, tags.1, tags.2],
        examples: match example {
            Some(e) => Some(seq![e]),
            None => None,
        },
    }
}

/// A skill with three tags and at most one example.
pub fn skill(
    id: &str,
    name: &str,
    description: &str,
    tags: (&str, &str, &str),
    example: Option<&str>,
) -> (r: Skill)
    ensures
        r@ == skill_of(id@, name@, description@, (tags.0@, tags.1@, tags.2@), opt_str(example)),
{
    let mut list: Vec<String> = Vec::new();
    list.push(text(tags.0));
    list.push(text(tags.1));
    list.push(text(tags.2));
    assert(views(list@) =~= seq![tags.0@, tags.1@, tags.2@]);
    let examples = match example {
        Some(e) => {
            let mut given: Vec<String> = Vec::new();
            given.push(text(e));
            assert(views(given@) =~= seq![e@]);
            Some(given)
        },
        None => None,
    };
    Skill {
        id: text(id),
        name: text(name),
        description: text(description),
        tags: list,
        examples,
    }
}

/// The card of an agent.
#[derive(Debug)]
pub struct Card {
    pub name: String,
    pub description: String,
    pub version: String,
    pub organization: String,
    pub organization_url: String,
    pub streaming: bool,
    pub push_notifications: bool,
    pub skills: Vec<Skill>,
    pub input_mode: String,
    pub output_mode: String,
    /// Where the agent listens.
    pub url: String,
}

/// What the card of an agent holds.
#[verifier::ext_equal]
pub struct CardView {
    pub name: Seq<char>,
    pub description: Seq<char>,
    pub version: Seq<char>,
    pub organization: Seq<char>,
    pub organization_url: Seq<char>,
    pub streaming: bool,
    pub push_notifications: bool,
    pub skills: Seq<SkillView>,
    pub input_mode: Seq<char>,
    pub output_mode: Seq<char>,
    pub url: Seq<char>,
}

impl View for Card {
    type V = CardView;

    open spec fn view(&self) -> CardView {
        CardView {
            name: self.name@,
            description: self.description@,
            version: self.version@,
            organization: self.organization@,
            organization_url: self.organization_url@,
            streaming: self.streaming,
            push_notifications: self.push_notifications,
            skills: skill_views(self.skills@),
            input_mode: self.input_mode@,
            output_mode: self.output_mode@,
            url: self.url@,
        }
    }
}

/// The card of an agent that streams plain text.
pub open spec fn streaming_card(
    name: Seq<char>,
    description: Seq<char>,
    version: Seq<char>,
    skills: Seq<SkillView>,
    port: u16,
) -> CardView {
    CardView {
        name,
        description,
        version,
        organization: "Nasiko"@,
        organization_url: "https://nasiko.io"@,
        streaming: true,
        push_notifications: false,
        skills,
        input_mode: "text/plain"@,
        output_mode: "text/plain"@,
        url: "http://0.0.0.0:"@ + decimal(port as nat) + "/"@,
    }
}

/// The card of an agent that streams plain text.
pub fn make_card(
    name: &str,
    description: &str,
    version: &str,
    skills: Vec<Skill>,
    port: u16,
) -> (r: Card)
    ensures
        r@ == streaming_card(name@, description@, version@, skill_views(skills@), port),
{
    let mut url = text("http://0.0.0.0:");
    let number = count_text(port as usize);
    url.append(number.as_str());
    url.append("/");
    Card {
        name: text(name),
        description: text(description),
        version: text(version),
        organization: text("Nasiko"),
        organization_url: text("https://nasiko.io"),
        streaming: true,
        push_notifications: false,
        skills,
        input_mode: text("text/plain"),
        output_mode: text("text/plain"),
        url,
    }
}

} // verus!
