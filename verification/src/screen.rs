//! What each screen shows: its title and its lines, as plain text for
//! whatever draws them.

use vstd::prelude::*;
use crate::model::ModelType;
use crate::ui::{App, Screen};

verus! {

/// One entry of a menu.
#[derive(Debug, Clone, PartialEq, Eq)]
pub struct MenuLine {
    pub text: String,
    /// Whether this entry is the selected one, to be drawn highlighted.
    pub selected: bool,
}

/// The mathematical value of a `MenuLine`.
pub struct MenuLineView {
    pub text: Seq<char>,
    pub selected: bool,
}

impl View for MenuLine {
    type V = MenuLineView;

    open spec fn view(&self) -> MenuLineView {
        MenuLineView { text: self.text@, selected: self.selected }
    }
}

impl DeepView for MenuLine {
    type V = MenuLineView;

    open spec fn deep_view(&self) -> MenuLineView {
        self@
    }
}

/// What stands below the title.
#[derive(Debug, Clone, PartialEq, Eq)]
pub enum ScreenBody {
    Menu(Vec<MenuLine>),
    Text(String),
}

/// The mathematical value of a `ScreenBody`.
pub enum ScreenBodyView {
    Menu(Seq<MenuLineView>),
    Text(Seq<char>),
}

impl View for ScreenBody {
    type V = ScreenBodyView;

    open spec fn view(&self) -> ScreenBodyView {
        match self {
            ScreenBody::Menu(lines) => ScreenBodyView::Menu(lines.deep_view()),
            ScreenBody::Text(text) => ScreenBodyView::Text(text@),
        }
    }
}

/// A screen, ready to be drawn.
#[derive(Debug, Clone, PartialEq, Eq)]
pub struct ScreenContent {
    pub title: String,
    pub body: ScreenBody,
    /// A line of guidance below the body, where the screen has one.
    pub hint: Option<String>,
}

/// The mathematical value of a `ScreenContent`.
pub struct ScreenContentView {
    pub title: Seq<char>,
    pub body: ScreenBodyView,
    pub hint: Option<Seq<char>>,
}

impl View for ScreenContent {
    type V = ScreenContentView;

    open spec fn view(&self) -> ScreenContentView {
        ScreenContentView {
            title: self.title@,
            body: self.body@,
            hint: self.hint.deep_view(),
        }
    }
}

impl Screen {
    /// The title of this screen.
    pub open spec fn title_text(self) -> Seq<char> {
        match self {
            Screen::Home => "Music Source Separation TUI"@,
            Screen::ModelSelection => "Model Selection"@,
            Screen::Config => "Configuration"@,
            Screen::Training => "Training"@,
            Screen::Inference => "Inference"@,
            Screen::Validation => "Validation"@,
        }
    }

    /// The text of a screen that has no menu yet; empty for one that has.
    pub open spec fn placeholder_text(self) -> Seq<char> {
        match self {
            Screen::Config => "Configuration management - Coming soon!"@,
            Screen::Training => "Training interface - Coming soon!"@,
            Screen::Inference => "Inference interface - Coming soon!"@,
            Screen::Validation => "Validation interface - Coming soon!"@,
            _ => Seq::empty(),
        }
    }

    pub fn title(&self) -> (text: &'static str)
        ensures
            text@ == self.title_text(),
    {
        match self {
            Screen::Home => "Music Source Separation TUI",
            Screen::ModelSelection => "Model Selection",
            Screen::Config => "Configuration",
            Screen::Training => "Training",
            Screen::Inference => "Inference",
            Screen::Validation => "Validation",
        }
    }
}

/// The title of the help.
pub open spec fn help_title() -> Seq<char> {
    "Help"@
}

/// The text of the help.
pub open spec fn help_text() -> Seq<char> {
    "Keyboard Shortcuts:\n\nq - Quit\nh - Show this help\nEnter - Select\nArrow Up/Down - Navigate\nEsc - Go back\n\nPress any key to dismiss..."@
}

/// The guidance below the home menu.
pub open spec fn home_hint() -> Seq<char> {
    "Use arrow keys to navigate, Enter to select"@
}

/// The entries of the home menu.
pub open spec fn home_items() -> Seq<Seq<char>> {
    seq![
        "1. Model Selection"@,
        "2. Configuration"@,
        "3. Training"@,
        "4. Inference"@,
        "5. Validation"@,
        "q. Quit"@,
        "h. Help"@,
    ]
}

/// The entry of a model in the selection menu: its name, a dash, its
/// description.
pub open spec fn model_item(model: ModelType) -> Seq<char> {
    model.name_text() + " - "@ + model.description_text()
}

/// The entries of the model selection menu: one for each model of the
/// catalog, in its order.
pub open spec fn model_items() -> Seq<Seq<char>> {
    Seq::new(ModelType::catalog().len(), |i: int| model_item(ModelType::catalog()[i]))
}

/// A menu of `items` in which the entry at `selected` is the selected one.
pub open spec fn menu_of(items: Seq<Seq<char>>, selected: int) -> Seq<MenuLineView> {
    Seq::new(items.len(), |i: int| MenuLineView { text: items[i], selected: i == selected })
}

impl App {
    /// What shows: the help while it is visible, else the screen. The home
    /// screen and the model selection are menus with the selected entry
    /// marked; the other screens are a line of text.
    pub open spec fn content_of(self) -> ScreenContentView {
        if self.help_visible {
            ScreenContentView {
                title: help_title(),
                body: ScreenBodyView::Text(help_text()),
                hint: None,
            }
        } else {
            match self.screen {
                Screen::Home => ScreenContentView {
                    title: self.screen.title_text(),
                    body: ScreenBodyView::Menu(menu_of(home_items(), self.selected_index as int)),
                    hint: Some(home_hint()),
                },
                Screen::ModelSelection => ScreenContentView {
                    title: self.screen.title_text(),
                    body: ScreenBodyView::Menu(
                        menu_of(model_items(), self.selected_index as int),
                    ),
                    hint: None,
                },
                _ => ScreenContentView {
                    title: self.screen.title_text(),
                    body: ScreenBodyView::Text(self.screen.placeholder_text()),
                    hint: None,
                },
            }
        }
    }

    /// What to draw for the present state.
    pub fn content(&self) -> (content: ScreenContent)
        ensures
            content@ == self.content_of(),
    {
        if self.help_visible {
            return ScreenContent {
                title: "Help".to_owned(),
                body: ScreenBody::Text(
                    "Keyboard Shortcuts:\n\nq - Quit\nh - Show this help\nEnter - Select\nArrow Up/Down - Navigate\nEsc - Go back\n\nPress any key to dismiss...".to_owned(),
                ),
                hint: None,
            };
        }
        let title = self.screen.title().to_owned();
        match self.screen {
            Screen::Home => ScreenContent {
                title,
                body: ScreenBody::Menu(menu(home_menu(), self.selected_index)),
                hint: Some("Use arrow keys to navigate, Enter to select".to_owned()),
            },
            Screen::ModelSelection => ScreenContent {
                title,
                body: ScreenBody::Menu(menu(model_menu(), self.selected_index)),
                hint: None,
            },
            Screen::Config => ScreenContent {
                title,
                body: ScreenBody::Text("Configuration management - Coming soon!".to_owned()),
                hint: None,
            },
            Screen::Training => ScreenContent {
                title,
                body: ScreenBody::Text("Training interface - Coming soon!".to_owned()),
                hint: None,
            },
            Screen::Inference => ScreenContent {
                title,
                body: ScreenBody::Text("Inference interface - Coming soon!".to_owned()),
                hint: None,
            },
            Screen::Validation => ScreenContent {
                title,
                body: ScreenBody::Text("Validation interface - Coming soon!".to_owned()),
                hint: None,
            },
        }
    }
}

/// The entries of the home menu.
pub fn home_menu() -> (items: Vec<String>)
    ensures
        items.deep_view() == home_items(),
{
    let mut items: Vec<String> = Vec::new();
    items.push("1. Model Selection".to_owned());
    items.push("2. Configuration".to_owned());
    items.push("3. Training".to_owned());
    items.push("4. Inference".to_owned());
    items.push("5. Validation".to_owned());
    items.push("q. Quit".to_owned());
    items.push("h. Help".to_owned());
    assert(items.deep_view() =~= home_items());
    items
}

/// The entries of the model selection menu.
pub fn model_menu() -> (items: Vec<String>)
    ensures
        items.deep_view() == model_items(),
{
    let models = ModelType::all_models();
    let mut items: Vec<String> = Vec::new();
    let mut i: usize = 0;
    assert(items.deep_view() =~= model_items().take(0));
    while i < models.len()
        invariant
            i <= models.len(),
            models@ == ModelType::catalog(),
            items.deep_view() == model_items().take(i as int),
        decreases models.len() - i,
    {
        let ghost before = items.deep_view();
        let mut text = models[i].name().to_owned();
        text.append(" - ");
        text.append(models[i].description());
        items.push(text);
        assert(items.deep_view() =~= before.push(model_item(models@[i as int])));
        assert(items.deep_view() =~= model_items().take(i + 1));
        i += 1;
    }
    assert(model_items().take(i as int) =~= model_items());
    items
}

/// Marks the entry at `selected` in a menu of `items`.
pub fn menu(items: Vec<String>, selected: usize) -> (lines: Vec<MenuLine>)
    ensures
        lines.deep_view() == menu_of(items.deep_view(), selected as int),
{
    let ghost whole = menu_of(items.deep_view(), selected as int);
    let mut lines: Vec<MenuLine> = Vec::new();
    let mut i: usize = 0;
    assert(lines.deep_view() =~= whole.take(0));
    while i < items.len()
        invariant
            i <= items.len(),
            whole == menu_of(items.deep_view(), selected as int),
            lines.deep_view() == whole.take(i as int),
        decreases items.len() - i,
    {
        let ghost before = lines.deep_view();
        let line = MenuLine { text: items[i].clone(), selected: i == selected };
        lines.push(line);
        assert(lines.deep_view() =~= before.push(line@));
        assert(lines.deep_view() =~= whole.take(i + 1));
        i += 1;
    }
    assert(whole.take(i as int) =~= whole);
    lines
}

} // verus!
