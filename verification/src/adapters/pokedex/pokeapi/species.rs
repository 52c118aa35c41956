use vstd::prelude::*;

verus! {

/// The name under which the provider lists the English language.
pub const LANGUAGE_ENGLISH: &'static str = "en";

/// This struct represents a Pokémon species returned by the `api/v2/pokemon-species/:pokemon` endpoint.
/// here only fields relevant to the application should be defined.
#[derive(Debug)]
pub struct Species {
    pub flavor_text_entries: Vec<FlavorTextEntry>,
    pub habitat: Option<Habitat>,
    pub is_legendary: bool,
}

/// This struct represents a flavor text entry for a Pokémon species.
///
/// It is used to get the Pokémon description in different languages and versions.
#[derive(Debug)]
pub struct FlavorTextEntry {
    pub flavor_text: String,
    pub language: Language,
}

/// This struct represents the habitat of a Pokémon species.
#[derive(Debug)]
pub struct Habitat {
    pub name: String,
}

/// This struct represents a language used in the Pokémon species data.
#[derive(Debug)]
pub struct Language {
    pub name: String,
}

/// The mathematical value of a [`Species`].
pub ghost struct SpeciesView {
    pub flavor_text_entries: Seq<FlavorTextEntryView>,
    pub habitat: Option<Seq<char>>,
    pub is_legendary: bool,
}

/// The mathematical value of a [`FlavorTextEntry`]: the text, and the name of its language.
pub ghost struct FlavorTextEntryView {
    pub flavor_text: Seq<char>,
    pub language: Seq<char>,
}

impl View for Language {
    type V = Seq<char>;

    /// A language is known by its name.
    open spec fn view(&self) -> Seq<char> {
        self.name@
    }
}

impl View for Habitat {
    type V = Seq<char>;

    /// A habitat is known by its name.
    open spec fn view(&self) -> Seq<char> {
        self.name@
    }
}

impl View for FlavorTextEntry {
    type V = FlavorTextEntryView;

    open spec fn view(&self) -> FlavorTextEntryView {
        FlavorTextEntryView { flavor_text: self.flavor_text@, language: self.language@ }
    }
}

impl View for Species {
    type V = SpeciesView;

    open spec fn view(&self) -> SpeciesView {
        SpeciesView {
            flavor_text_entries: entry_views(self.flavor_text_entries@),
            habitat: match self.habitat {
                Some(habitat) => Some(habitat@),
                None => None,
            },
            is_legendary: self.is_legendary,
        }
    }
}

impl FlavorTextEntryView {
    /// Whether the text is written in English.
    pub open spec fn is_english(self) -> bool {
        self.language == LANGUAGE_ENGLISH@
    }
}

/// The views of a list of entries, in the same order.
pub open spec fn entry_views(entries: Seq<FlavorTextEntry>) -> Seq<FlavorTextEntryView> {
    entries.map_values(|entry: FlavorTextEntry| entry@)
}

/// The texts of those of `entries` that are written in English, in the same order.
pub open spec fn english_texts(entries: Seq<FlavorTextEntryView>) -> Seq<Seq<char>> {
    entries.filter(|entry: FlavorTextEntryView| entry.is_english()).map_values(
        |entry: FlavorTextEntryView| entry.flavor_text,
    )
}

impl SpeciesView {
    /// The English descriptions of the species, in the order in which the provider lists them.
    pub open spec fn english_descriptions(self) -> Seq<Seq<char>> {
        english_texts(self.flavor_text_entries)
    }
}

/// One more entry adds its text to the English texts where it is written in
/// English, and leaves them as they are where it is not.
pub proof fn lemma_english_texts_push(entries: Seq<FlavorTextEntryView>, entry: FlavorTextEntryView)
    ensures
        english_texts(entries.push(entry)) == if entry.is_english() {
            english_texts(entries).push(entry.flavor_text)
        } else {
            english_texts(entries)
        },
{
    reveal(Seq::filter);
    assert(entries.push(entry).drop_last() =~= entries);
    assert(entries.push(entry).last() == entry);
}

} // verus!
