use vstd::prelude::*;

verus! {

/// A rectangle of terminal cells.
#[derive(Clone, Copy, Debug, PartialEq, Eq, Structural)]
pub struct Area {
    pub x: u16,
    pub y: u16,
    pub width: u16,
    pub height: u16,
}

/// The five panels of the dashboard.
#[derive(Clone, Copy, Debug, PartialEq, Eq, Structural)]
pub struct Panels {
    pub header: Area,
    pub logs: Area,
    pub process: Area,
    pub database: Area,
    pub event_loop: Area,
}

/// How many cells a rectangle covers.
pub open spec fn cells(a: Area) -> nat {
    (a.width * a.height) as nat
}

/// Where the panels go in `area`. The header takes the top sixth over the
/// whole width. Below it the log panel takes the left half. The right half
/// is stacked: the process panel takes a third of the height below the
/// header, and the database panel and the chart each take half of what is
/// then left.
pub open spec fn panels(area: Area) -> Panels {
    let header_height = area.height / 6;
    let body = area.height - header_height;
    let half = area.width / 2;
    let process_height = body / 3;
    let rest = (body - process_height) / 2;
    Panels {
        header: Area { x: area.x, y: area.y, width: area.width, height: header_height as u16 },
        logs: Area { x: 0, y: header_height as u16, width: half as u16, height: body as u16 },
        process: Area {
            x: half as u16,
            y: header_height as u16,
            width: half as u16,
            height: process_height as u16,
        },
        database: Area {
            x: half as u16,
            y: (header_height + process_height) as u16,
            width: half as u16,
            height: rest as u16,
        },
        event_loop: Area {
            x: half as u16,
            y: (header_height + process_height + rest) as u16,
            width: half as u16,
            height: rest as u16,
        },
    }
}

/// Lays the panels out in `area`.
pub fn layout(area: Area) -> (r: Panels)
    ensures
        r == panels(area),
{
    let header_height: u16 = area.height / 6;
    let body: u16 = area.height - header_height;
    let half: u16 = area.width / 2;
    let process_height: u16 = body / 3;
    let rest: u16 = (body - process_height) / 2;
    Panels {
        header: Area { x: area.x, y: area.y, width: area.width, height: header_height },
        logs: Area { x: 0, y: header_height, width: half, height: body },
        process: Area { x: half, y: header_height, width: half, height: process_height },
        database: Area { x: half, y: header_height + process_height, width: half, height: rest },
        event_loop: Area {
            x: half,
            y: header_height + process_height + rest,
            width: half,
            height: rest,
        },
    }
}

/// The panels stay inside the area: the right-hand panels are stacked
/// without a gap and end at or above the area's lower edge, the two columns
/// together are no wider than the area, and no panel covers more cells than
/// the area does.
pub proof fn lemma_panels_fit(area: Area)
    ensures
        panels(area).header.height + panels(area).logs.height == area.height,
        panels(area).process.y == panels(area).header.height,
        panels(area).database.y == panels(area).process.y + panels(area).process.height,
        panels(area).event_loop.y == panels(area).database.y + panels(area).database.height,
        panels(area).event_loop.y + panels(area).event_loop.height <= area.height,
        panels(area).logs.width + panels(area).process.width <= area.width,
        cells(panels(area).header) <= cells(area),
        cells(panels(area).logs) <= cells(area),
        cells(panels(area).process) <= cells(area),
        cells(panels(area).database) <= cells(area),
        cells(panels(area).event_loop) <= cells(area),
{
    let p = panels(area);
    lemma_smaller_sides(p.header.width as nat, p.header.height as nat, area.width as nat, area.height as nat);
    lemma_smaller_sides(p.logs.width as nat, p.logs.height as nat, area.width as nat, area.height as nat);
    lemma_smaller_sides(p.process.width as nat, p.process.height as nat, area.width as nat, area.height as nat);
    lemma_smaller_sides(p.database.width as nat, p.database.height as nat, area.width as nat, area.height as nat);
    lemma_smaller_sides(p.event_loop.width as nat, p.event_loop.height as nat, area.width as nat, area.height as nat);
}

proof fn lemma_smaller_sides(w: nat, h: nat, max_w: nat, max_h: nat)
    requires
        w <= max_w,
        h <= max_h,
    ensures
        w * h <= max_w * max_h,
{
    assert(w * h <= max_w * max_h) by (nonlinear_arith)
        requires
            w <= max_w,
            h <= max_h,
    ;
}

} // verus!
