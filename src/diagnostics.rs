use vstd::prelude::*;

verus! {

/// One diagnostic of the engine's registry as the panel reads it: its path,
/// and its rolling average already written with two decimals, when it has one.
#[derive(Clone, Debug)]
pub struct DiagnosticEntry {
    pub path: String,
    pub average: Option<String>,
}

/// One row of the diagnostics grid: a label to translate, and a value.
#[derive(Clone, Debug)]
pub struct Row {
    pub label: String,
    pub value: Option<String>,
}

impl View for Row {
    type V = (Seq<char>, Option<Seq<char>>);

    open spec fn view(&self) -> (Seq<char>, Option<Seq<char>>) {
        (self.label@, opt_view(self.value))
    }
}

/// The text of an optional string.
pub open spec fn opt_view(o: Option<String>) -> Option<Seq<char>> {
    match o {
        Some(s) => Some(s@),
        None => None,
    }
}

/// The view of each row of `v`.
pub open spec fn row_views(v: Seq<Row>) -> Seq<(Seq<char>, Option<Seq<char>>)> {
    v.map_values(|r: Row| r@)
}

/// The row that shows entry `e`.
pub open spec fn row_of(e: DiagnosticEntry) -> (Seq<char>, Option<Seq<char>>) {
    (e.path@, opt_view(e.average))
}

/// The rows that show the entries of `s`, in order.
pub open spec fn rows_of(s: Seq<DiagnosticEntry>) -> Seq<(Seq<char>, Option<Seq<char>>)> {
    s.map_values(|e: DiagnosticEntry| row_of(e))
}

/// What the diagnostics window shows.
#[derive(Clone, Debug)]
pub enum Panel {
    /// The registry is absent: a single message, to translate.
    Unavailable { message: String },
    /// A grid with a row per diagnostic; when there are none, a help note to
    /// translate stands in the grid instead.
    Grid { rows: Vec<Row>, note: Option<String> },
}

/// The editor window that lists the engine's diagnostics.
#[derive(Clone, Copy, Debug, PartialEq, Eq, Structural)]
pub struct DiagnosticsWindow;

/// The window's title.
pub open spec fn window_name() -> Seq<char> {
    "Diagnostics"@
}

/// The message shown when the registry is absent.
pub open spec fn unavailable_message() -> Seq<char> {
    "Diagnostics resource not available"@
}

/// The message shown when the registry holds no diagnostic.
pub open spec fn empty_message() -> Seq<char> {
    "No diagnostics found. Possible plugins to add:\n            - `FrameTimeDiagnosticsPlugin`\n            - `EntityCountDiagnisticsPlugin`\n            - `AssetCountDiagnosticsPlugin`\n            "@
}

impl DiagnosticsWindow {
    /// The window's title.
    pub fn name() -> (r: &'static str)
        ensures
            r@ == window_name(),
    {
        "Diagnostics"
    }

    /// What the window shows for the registry `store`, `None` when the engine
    /// has none: a row per diagnostic in the registry's order, labelled by its
    /// path, or a message when there is no registry or it is empty.
    pub fn panel(store: Option<&Vec<DiagnosticEntry>>) -> (r: Panel)
        ensures
            store is None ==> (r matches Panel::Unavailable { message }
                && message@ == unavailable_message()),
            store is Some ==> (r matches Panel::Grid { rows, note } && {
                &&& row_views(rows@) == rows_of(store->0@)
                &&& note is None <==> store->0@.len() > 0
                &&& note is Some ==> note->0@ == empty_message()
            }),
    {
        match store {
            None => Panel::Unavailable {
                message: String::from_str("Diagnostics resource not available"),
            },
            Some(entries) => {
                let mut rows: Vec<Row> = Vec::new();
                let mut i: usize = 0;
                while i < entries.len()
                    invariant
                        i <= entries@.len(),
                        rows@.len() == i,
                        row_views(rows@) == rows_of(entries@.take(i as int)),
                    decreases entries@.len() - i,
                {
                    let e = &entries[i];
                    let ghost before = rows@;
                    let value = match &e.average {
                        Some(a) => Some(a.clone()),
                        None => None,
                    };
                    rows.push(Row { label: e.path.clone(), value });
                    proof {
                        assert(rows@.last()@ == row_of(entries@[i as int]));
                        let taken = entries@.take(i as int + 1);
                        assert forall|j: int| 0 <= j <= i implies row_views(rows@)[j] == rows_of(
                            taken,
                        )[j] by {
                            if j < i {
                                assert(row_views(before)[j] == rows_of(entries@.take(i as int))[j]);
                            } else {
                                assert(taken[j] == entries@[i as int]);
                            }
                        }
                        assert(row_views(rows@) =~= rows_of(taken));
                    }
                    i = i + 1;
                }
                proof {
                    assert(entries@.take(i as int) =~= entries@);
                }
                let note = if entries.len() == 0 {
                    Some(
                        String::from_str(
                            "No diagnostics found. Possible plugins to add:\n            - `FrameTimeDiagnosticsPlugin`\n            - `EntityCountDiagnisticsPlugin`\n            - `AssetCountDiagnosticsPlugin`\n            ",
                        ),
                    )
                } else {
                    None
                };
                Panel::Grid { rows, note }
            },
        }
    }
}

} // verus!
